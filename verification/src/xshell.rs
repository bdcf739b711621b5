//! The XShell format: an INI file with one section for each scheme, called
//! by the scheme's name, and a last section `Names` that numbers the schemes.

use crate::hex::{
    hex_digits, is_digit_of_case, lemma_lower_repr, parse_hex, push_hex, rgb_of_hex, RGB_MAX,
};
use crate::inifile::{
    ini_get, ini_load, ini_properties, ini_read, ini_section, ini_section_names, ini_sections,
    lemma_properties_of, name_views, names_of, properties_of, Props, Section,
};
use crate::scheme::{all_wf, outcome, ColorScheme, ColorSchemes, Scheme, SchemeError};
use crate::text::{decimal, eq_ignore_ascii_case, push_decimal, same_ignoring_case};
use vstd::prelude::*;
use vstd::string::StringExecFns;

verus! {

/// A key and its value, as one line of a section holds them.
pub type Entry = (Seq<char>, Seq<char>);

/// A colour as six hexadecimal digits in lower case.
pub open spec fn lower_repr(color: u32) -> Seq<char> {
    hex_digits(color as nat, 6, false)
}

/// The entries of the section written for a scheme, in the order in which
/// they are written. The bold text takes the foreground colour.
pub open spec fn entries_of(s: Scheme) -> Seq<Entry> {
    seq![
        ("text"@, lower_repr(s.foreground)),
        ("cyan(bold)"@, lower_repr(s.bright_cyan)),
        ("text(bold)"@, lower_repr(s.foreground)),
        ("magenta"@, lower_repr(s.magenta)),
        ("green"@, lower_repr(s.green)),
        ("green(bold)"@, lower_repr(s.bright_green)),
        ("background"@, lower_repr(s.background)),
        ("cyan"@, lower_repr(s.cyan)),
        ("red(bold)"@, lower_repr(s.bright_red)),
        ("yellow"@, lower_repr(s.yellow)),
        ("magenta(bold)"@, lower_repr(s.bright_magenta)),
        ("yellow(bold)"@, lower_repr(s.bright_yellow)),
        ("red"@, lower_repr(s.red)),
        ("white"@, lower_repr(s.white)),
        ("blue(bold)"@, lower_repr(s.bright_blue)),
        ("white(bold)"@, lower_repr(s.bright_white)),
        ("black"@, lower_repr(s.black)),
        ("blue"@, lower_repr(s.blue)),
        ("black(bold)"@, lower_repr(s.bright_black)),
    ]
}

/// The entries of the section `Names`: the schemes numbered from their count
/// down to one, then the count.
pub open spec fn names_entries(schemes: Seq<Scheme>) -> Seq<Entry> {
    Seq::new(
        schemes.len(),
        |i: int| ("name"@ + decimal((schemes.len() - i) as nat), schemes[i].name),
    ).push(("count"@, decimal(schemes.len())))
}

/// The lines of the entries of a section, each after a line break.
pub open spec fn entries_text(entries: Seq<Entry>) -> Seq<char>
    decreases entries.len(),
{
    if entries.len() == 0 {
        Seq::empty()
    } else {
        entries_text(entries.drop_last()) + seq!['\n'] + entries.last().0 + seq!['=']
            + entries.last().1
    }
}

/// A section as text: its name in brackets, then its entries.
pub open spec fn section_text(name: Seq<char>, entries: Seq<Entry>) -> Seq<char> {
    seq!['['] + name + seq![']'] + entries_text(entries)
}

/// The sections of the schemes as text, with a line break between two.
pub open spec fn sections_text(schemes: Seq<Scheme>) -> Seq<char>
    decreases schemes.len(),
{
    if schemes.len() == 0 {
        Seq::empty()
    } else if schemes.len() == 1 {
        section_text(schemes[0].name, entries_of(schemes[0]))
    } else {
        sections_text(schemes.drop_last()) + seq!['\n'] + section_text(
            schemes.last().name,
            entries_of(schemes.last()),
        )
    }
}

/// The text written for a collection: the sections of the schemes in
/// order, a line break, and the section `Names`.
pub open spec fn encoded(schemes: Seq<Scheme>) -> Seq<char> {
    sections_text(schemes) + seq!['\n'] + section_text("Names"@, names_entries(schemes))
}

/// Whether a section describes a scheme: every named section does, but the
/// one called `Names` in any case of the letters.
pub open spec fn is_scheme_section(s: Section) -> bool {
    match s.0 {
        Some(name) => !same_ignoring_case(name, "Names"@),
        None => false,
    }
}

/// `is_scheme_section`, as a value.
pub open spec fn keeps() -> spec_fn(Section) -> bool {
    |s: Section| is_scheme_section(s)
}

/// The colour under `key`: zero where the key is missing, nothing where
/// its value is no hexadecimal number of 24 bits.
pub open spec fn color_of(props: Props, key: Seq<char>) -> Option<u32> {
    if props.dom().contains(key) {
        rgb_of_hex(props[key])
    } else {
        Some(0u32)
    }
}

/// Whether every colour that a section gives can be read.
pub open spec fn is_readable(props: Props) -> bool {
    &&& color_of(props, "black"@) is Some
    &&& color_of(props, "red"@) is Some
    &&& color_of(props, "green"@) is Some
    &&& color_of(props, "yellow"@) is Some
    &&& color_of(props, "blue"@) is Some
    &&& color_of(props, "magenta"@) is Some
    &&& color_of(props, "cyan"@) is Some
    &&& color_of(props, "white"@) is Some
    &&& color_of(props, "black(bold)"@) is Some
    &&& color_of(props, "red(bold)"@) is Some
    &&& color_of(props, "green(bold)"@) is Some
    &&& color_of(props, "yellow(bold)"@) is Some
    &&& color_of(props, "blue(bold)"@) is Some
    &&& color_of(props, "magenta(bold)"@) is Some
    &&& color_of(props, "cyan(bold)"@) is Some
    &&& color_of(props, "white(bold)"@) is Some
    &&& color_of(props, "background"@) is Some
    &&& color_of(props, "text"@) is Some
}

/// The scheme that a section describes.
pub open spec fn scheme_of(name: Seq<char>, props: Props) -> Scheme {
    Scheme {
        name,
        black: color_of(props, "black"@).unwrap(),
        red: color_of(props, "red"@).unwrap(),
        green: color_of(props, "green"@).unwrap(),
        yellow: color_of(props, "yellow"@).unwrap(),
        blue: color_of(props, "blue"@).unwrap(),
        magenta: color_of(props, "magenta"@).unwrap(),
        cyan: color_of(props, "cyan"@).unwrap(),
        white: color_of(props, "white"@).unwrap(),
        bright_black: color_of(props, "black(bold)"@).unwrap(),
        bright_red: color_of(props, "red(bold)"@).unwrap(),
        bright_green: color_of(props, "green(bold)"@).unwrap(),
        bright_yellow: color_of(props, "yellow(bold)"@).unwrap(),
        bright_blue: color_of(props, "blue(bold)"@).unwrap(),
        bright_magenta: color_of(props, "magenta(bold)"@).unwrap(),
        bright_cyan: color_of(props, "cyan(bold)"@).unwrap(),
        bright_white: color_of(props, "white(bold)"@).unwrap(),
        background: color_of(props, "background"@).unwrap(),
        foreground: color_of(props, "text"@).unwrap(),
    }
}

/// The properties that are read for a section: those of the first section
/// of its name.
pub open spec fn properties_for(sections: Seq<Section>, s: Section) -> Props {
    properties_of(sections, s.0.unwrap()).unwrap()
}

/// What the sections of a file decode to: the schemes of the sections that
/// describe one, in order, or `Invalid` where a colour cannot be read.
pub open spec fn schemes_of_sections(sections: Seq<Section>) -> Result<Seq<Scheme>, SchemeError> {
    let kept = sections.filter(keeps());
    if forall|i: int|
        0 <= i < kept.len() ==> is_readable(properties_for(sections, #[trigger] kept[i])) {
        Ok(kept.map_values(|s: Section| scheme_of(s.0.unwrap(), properties_for(sections, s))))
    } else {
        Err(SchemeError::Invalid)
    }
}

/// What a text decodes to: `Invalid` where it is no INI file, else what its
/// sections decode to.
pub open spec fn decoded(text: Seq<char>) -> Result<Seq<Scheme>, SchemeError> {
    match ini_read(text) {
        Some(sections) => schemes_of_sections(sections),
        None => Err(SchemeError::Invalid),
    }
}

/// The entry at position `i` of the section for a scheme: its key and the
/// colour to write.
fn entry_at(scheme: &ColorScheme, i: usize) -> (r: (&'static str, u32))
    requires
        i < 19,
    ensures
        entries_of(scheme@).len() == 19,
        entries_of(scheme@)[i as int] == (r.0@, lower_repr(r.1)),
{
    match i {
        0 => ("text", scheme.foreground),
        1 => ("cyan(bold)", scheme.bright_cyan),
        2 => ("text(bold)", scheme.foreground),
        3 => ("magenta", scheme.magenta),
        4 => ("green", scheme.green),
        5 => ("green(bold)", scheme.bright_green),
        6 => ("background", scheme.background),
        7 => ("cyan", scheme.cyan),
        8 => ("red(bold)", scheme.bright_red),
        9 => ("yellow", scheme.yellow),
        10 => ("magenta(bold)", scheme.bright_magenta),
        11 => ("yellow(bold)", scheme.bright_yellow),
        12 => ("red", scheme.red),
        13 => ("white", scheme.white),
        14 => ("blue(bold)", scheme.bright_blue),
        15 => ("white(bold)", scheme.bright_white),
        16 => ("black", scheme.black),
        17 => ("blue", scheme.blue),
        _ => ("black(bold)", scheme.bright_black),
    }
}

/// Appends the line of one entry to `out`, after a line break.
fn push_line(
    out: &mut String,
    Ghost(done): Ghost<Seq<Entry>>,
    Ghost(head): Ghost<Seq<char>>,
    key: &str,
    value: &str,
)
    requires
        old(out)@ == head + entries_text(done),
    ensures
        final(out)@ == head + entries_text(done.push((key@, value@))),
{
    out.push('\n');
    out.append(key);
    out.push('=');
    out.append(value);
    proof {
        let next = done.push((key@, value@));
        assert(next.drop_last() =~= done);
        assert(out@ =~= head + entries_text(next));
    }
}

/// Appends the section of one scheme to `out`.
fn push_scheme(out: &mut String, scheme: &ColorScheme)
    ensures
        final(out)@ == old(out)@ + section_text(scheme@.name, entries_of(scheme@)),
{
    out.push('[');
    out.append(scheme.name.as_str());
    out.push(']');
    let ghost head = out@;
    let mut i: usize = 0;
    assert(out@ =~= head + entries_text(entries_of(scheme@).take(0)));
    while i < 19
        invariant
            i <= 19,
            entries_of(scheme@).len() == 19,
            out@ == head + entries_text(entries_of(scheme@).take(i as int)),
        decreases 19 - i,
    {
        let (key, color) = entry_at(scheme, i);
        let mut value = String::new();
        push_hex(&mut value, color, 6, false);
        assert(value@ =~= lower_repr(color));
        push_line(
            out,
            Ghost(entries_of(scheme@).take(i as int)),
            Ghost(head),
            key,
            value.as_str(),
        );
        assert(entries_of(scheme@).take(i + 1) =~= entries_of(scheme@).take(i as int).push(
            (key@, value@),
        ));
        i += 1;
    }
    assert(entries_of(scheme@).take(19) =~= entries_of(scheme@));
    assert(out@ =~= old(out)@ + section_text(scheme@.name, entries_of(scheme@)));
}

impl ColorSchemes {
    /// Encodes the collection as an XShell file.
    pub fn to_xshell(&self) -> (r: Box<String>)
        ensures
            r@ == encoded(self@),
    {
        let n = self.0.len();
        let mut out = String::new();
        let mut i: usize = 0;
        while i < n
            invariant
                i <= n,
                n == self.0.len(),
                out@ == sections_text(self@.take(i as int)),
            decreases n - i,
        {
            if i > 0 {
                out.push('\n');
            }
            push_scheme(&mut out, &self.0[i]);
            proof {
                let next = self@.take(i + 1);
                assert(next.drop_last() =~= self@.take(i as int));
                assert(next.last() == self.0[i as int]@);
                if i == 0 {
                    assert(next[0] == self.0[0]@);
                    assert(out@ =~= sections_text(next));
                }
            }
            i += 1;
        }
        assert(self@.take(n as int) =~= self@);
        out.push('\n');
        out.push('[');
        out.append("Names");
        out.push(']');
        let ghost head = out@;
        let ghost names = Seq::new(
            self@.len(),
            |i: int| ("name"@ + decimal((self@.len() - i) as nat), self@[i].name),
        );
        let mut k: usize = 0;
        assert(out@ =~= head + entries_text(names.take(0)));
        while k < n
            invariant
                k <= n,
                n == self.0.len(),
                names.len() == n,
                forall|i: int|
                    0 <= i < n ==> #[trigger] names[i] == (
                        "name"@ + decimal((n - i) as nat),
                        self@[i].name,
                    ),
                out@ == head + entries_text(names.take(k as int)),
            decreases n - k,
        {
            let mut key = String::new();
            key.append("name");
            push_decimal(&mut key, n - k);
            assert(key@ =~= "name"@ + decimal((n - k) as nat));
            push_line(
                &mut out,
                Ghost(names.take(k as int)),
                Ghost(head),
                key.as_str(),
                self.0[k].name.as_str(),
            );
            assert(names.take(k + 1) =~= names.take(k as int).push(names[k as int]));
            k += 1;
        }
        assert(names.take(n as int) =~= names);
        let mut count = String::new();
        push_decimal(&mut count, n);
        assert(count@ =~= decimal(n as nat));
        push_line(&mut out, Ghost(names), Ghost(head), "count", count.as_str());
        assert(out@ =~= encoded(self@));
        Box::new(out)
    }
}

/// The colour under `key`.
fn find_color(props: &ini::Properties, key: &str) -> (r: Result<u32, SchemeError>)
    ensures
        match r {
            Ok(c) => color_of(ini_properties(*props), key@) == Some(c) && c <= RGB_MAX,
            Err(e) => e == SchemeError::Invalid && color_of(ini_properties(*props), key@) is None,
        },
{
    match ini_get(props, key) {
        Some(value) => match parse_hex(value) {
            Some(c) => Ok(c),
            None => Err(SchemeError::Invalid),
        },
        None => Ok(0),
    }
}

/// The scheme that a section describes.
fn scheme_from_section(
    name: &str,
    props: &ini::Properties,
) -> (r: Result<ColorScheme, SchemeError>)
    ensures
        match r {
            Ok(scheme) => is_readable(ini_properties(*props)) && scheme@ == scheme_of(
                name@,
                ini_properties(*props),
            ) && scheme@.wf(),
            Err(e) => e == SchemeError::Invalid && !is_readable(ini_properties(*props)),
        },
{
    let scheme = ColorScheme {
        name: name.to_owned(),
        black: find_color(props, "black")?,
        red: find_color(props, "red")?,
        green: find_color(props, "green")?,
        yellow: find_color(props, "yellow")?,
        blue: find_color(props, "blue")?,
        magenta: find_color(props, "magenta")?,
        cyan: find_color(props, "cyan")?,
        white: find_color(props, "white")?,
        bright_black: find_color(props, "black(bold)")?,
        bright_red: find_color(props, "red(bold)")?,
        bright_green: find_color(props, "green(bold)")?,
        bright_yellow: find_color(props, "yellow(bold)")?,
        bright_blue: find_color(props, "blue(bold)")?,
        bright_magenta: find_color(props, "magenta(bold)")?,
        bright_cyan: find_color(props, "cyan(bold)")?,
        bright_white: find_color(props, "white(bold)")?,
        background: find_color(props, "background")?,
        foreground: find_color(props, "text")?,
    };
    Ok(scheme)
}

/// The properties that the entries of a section give: for each key its
/// first value.
pub open spec fn first_values(entries: Seq<Entry>) -> Props
    decreases entries.len(),
{
    if entries.len() == 0 {
        Map::empty()
    } else {
        first_values(entries.drop_first()).insert(entries.first().0, entries.first().1)
    }
}

/// The sections of the file written for a collection, as a reader of INI
/// files hands them out: the empty section before the first header, one
/// section for each scheme, and `Names`.
pub open spec fn written_sections(schemes: Seq<Scheme>) -> Seq<Section> {
    seq![(None, Map::empty())] + schemes.map_values(
        |s: Scheme| (Some(s.name), first_values(entries_of(s))),
    ) + seq![(Some("Names"@), first_values(names_entries(schemes)))]
}

/// Schemes that an XShell file can tell apart: none is called `Names`, in
/// any case of the letters, and no two have the same name.
pub open spec fn has_distinct_names(schemes: Seq<Scheme>) -> bool {
    &&& forall|i: int|
        0 <= i < schemes.len() ==> !same_ignoring_case((#[trigger] schemes[i]).name, "Names"@)
    &&& forall|i: int, j: int|
        0 <= i < j < schemes.len() ==> (#[trigger] schemes[i]).name != (#[trigger] schemes[j]).name
}

/// An entry whose key no earlier entry has gives the value of that key.
proof fn lemma_first_values(entries: Seq<Entry>, i: int)
    requires
        0 <= i < entries.len(),
        forall|j: int| 0 <= j < i ==> (#[trigger] entries[j]).0 != entries[i].0,
    ensures
        first_values(entries).dom().contains(entries[i].0),
        first_values(entries)[entries[i].0] == entries[i].1,
    decreases entries.len(),
{
    if i > 0 {
        let rest = entries.drop_first();
        assert(rest[i - 1] == entries[i]);
        assert forall|j: int| 0 <= j < i - 1 implies (#[trigger] rest[j]).0 != rest[i - 1].0 by {
            assert(rest[j] == entries[j + 1]);
        }
        lemma_first_values(rest, i - 1);
        assert(entries[0].0 != entries[i].0);
    }
}

/// A section whose name no earlier section has gives the properties of
/// that name.
proof fn lemma_first_section(sections: Seq<Section>, i: int)
    requires
        0 <= i < sections.len(),
        sections[i].0 is Some,
        forall|j: int| 0 <= j < i ==> (#[trigger] sections[j]).0 != sections[i].0,
    ensures
        properties_of(sections, sections[i].0.unwrap()) == Some(sections[i].1),
    decreases sections.len(),
{
    if i > 0 {
        let rest = sections.drop_first();
        assert(rest[i - 1] == sections[i]);
        assert forall|j: int| 0 <= j < i - 1 implies (#[trigger] rest[j]).0 != rest[i - 1].0 by {
            assert(rest[j] == sections[j + 1]);
        }
        lemma_first_section(rest, i - 1);
        assert(sections[0].0 != sections[i].0);
    }
}

/// Where every section describes a scheme, all are kept.
proof fn lemma_keeps_all(sections: Seq<Section>)
    requires
        forall|i: int| 0 <= i < sections.len() ==> is_scheme_section(#[trigger] sections[i]),
    ensures
        sections.filter(keeps()) == sections,
    decreases sections.len(),
{
    reveal(Seq::filter);
    if sections.len() > 0 {
        lemma_keeps_all(sections.drop_last());
        assert(is_scheme_section(sections.last()));
        assert(sections.drop_last().push(sections.last()) =~= sections);
    }
}

/// What tells the keys of a section apart: their lengths and, among keys
/// of one length, the first letter or the second.
proof fn lemma_keys()
    ensures
        "text"@.len() == 4 && "text"@[0] == 't',
        "cyan(bold)"@.len() == 10 && "cyan(bold)"@[0] == 'c',
        "text(bold)"@.len() == 10 && "text(bold)"@[0] == 't',
        "magenta"@.len() == 7,
        "green"@.len() == 5 && "green"@[0] == 'g',
        "green(bold)"@.len() == 11 && "green(bold)"@[0] == 'g',
        "background"@.len() == 10 && "background"@[0] == 'b' && "background"@[1] == 'a',
        "cyan"@.len() == 4 && "cyan"@[0] == 'c',
        "red(bold)"@.len() == 9,
        "yellow"@.len() == 6,
        "magenta(bold)"@.len() == 13,
        "yellow(bold)"@.len() == 12,
        "red"@.len() == 3,
        "white"@.len() == 5 && "white"@[0] == 'w',
        "blue(bold)"@.len() == 10 && "blue(bold)"@[0] == 'b' && "blue(bold)"@[1] == 'l',
        "white(bold)"@.len() == 11 && "white(bold)"@[0] == 'w',
        "black"@.len() == 5 && "black"@[0] == 'b',
        "blue"@.len() == 4 && "blue"@[0] == 'b',
        "black(bold)"@.len() == 11 && "black(bold)"@[0] == 'b',
{
    reveal_strlit("text");
    reveal_strlit("cyan(bold)");
    reveal_strlit("text(bold)");
    reveal_strlit("magenta");
    reveal_strlit("green");
    reveal_strlit("green(bold)");
    reveal_strlit("background");
    reveal_strlit("cyan");
    reveal_strlit("red(bold)");
    reveal_strlit("yellow");
    reveal_strlit("magenta(bold)");
    reveal_strlit("yellow(bold)");
    reveal_strlit("red");
    reveal_strlit("white");
    reveal_strlit("blue(bold)");
    reveal_strlit("white(bold)");
    reveal_strlit("black");
    reveal_strlit("blue");
    reveal_strlit("black(bold)");
}

/// The section written for a well-formed scheme gives every colour, and
/// reads back as the scheme.
pub proof fn lemma_section_round_trip(s: Scheme)
    requires
        s.wf(),
    ensures
        is_readable(first_values(entries_of(s))),
        scheme_of(s.name, first_values(entries_of(s))) == s,
{
    let entries = entries_of(s);
    lemma_keys();
    lemma_first_values(entries, 0);
    lemma_first_values(entries, 1);
    lemma_first_values(entries, 2);
    lemma_first_values(entries, 3);
    lemma_first_values(entries, 4);
    lemma_first_values(entries, 5);
    lemma_first_values(entries, 6);
    lemma_first_values(entries, 7);
    lemma_first_values(entries, 8);
    lemma_first_values(entries, 9);
    lemma_first_values(entries, 10);
    lemma_first_values(entries, 11);
    lemma_first_values(entries, 12);
    lemma_first_values(entries, 13);
    lemma_first_values(entries, 14);
    lemma_first_values(entries, 15);
    lemma_first_values(entries, 16);
    lemma_first_values(entries, 17);
    lemma_first_values(entries, 18);
    lemma_lower_repr(s.black);
    lemma_lower_repr(s.red);
    lemma_lower_repr(s.green);
    lemma_lower_repr(s.yellow);
    lemma_lower_repr(s.blue);
    lemma_lower_repr(s.magenta);
    lemma_lower_repr(s.cyan);
    lemma_lower_repr(s.white);
    lemma_lower_repr(s.bright_black);
    lemma_lower_repr(s.bright_red);
    lemma_lower_repr(s.bright_green);
    lemma_lower_repr(s.bright_yellow);
    lemma_lower_repr(s.bright_blue);
    lemma_lower_repr(s.bright_magenta);
    lemma_lower_repr(s.bright_cyan);
    lemma_lower_repr(s.bright_white);
    lemma_lower_repr(s.background);
    lemma_lower_repr(s.foreground);
}

/// Every colour of a well-formed scheme is written as six hexadecimal
/// digits in lower case.
pub proof fn lemma_colours_are_lower_case(s: Scheme, i: int)
    requires
        s.wf(),
        0 <= i < entries_of(s).len(),
    ensures
        entries_of(s)[i].1.len() == 6,
        forall|j: int| 0 <= j < 6 ==> is_digit_of_case(#[trigger] entries_of(s)[i].1[j], false),
{
    lemma_lower_repr(s.black);
    lemma_lower_repr(s.red);
    lemma_lower_repr(s.green);
    lemma_lower_repr(s.yellow);
    lemma_lower_repr(s.blue);
    lemma_lower_repr(s.magenta);
    lemma_lower_repr(s.cyan);
    lemma_lower_repr(s.white);
    lemma_lower_repr(s.bright_black);
    lemma_lower_repr(s.bright_red);
    lemma_lower_repr(s.bright_green);
    lemma_lower_repr(s.bright_yellow);
    lemma_lower_repr(s.bright_blue);
    lemma_lower_repr(s.bright_magenta);
    lemma_lower_repr(s.bright_cyan);
    lemma_lower_repr(s.bright_white);
    lemma_lower_repr(s.background);
    lemma_lower_repr(s.foreground);
}

/// A text that does not decode is `Invalid`.
pub proof fn lemma_failure_is_invalid(text: Seq<char>)
    ensures
        decoded(text) is Err ==> decoded(text) == Err::<Seq<Scheme>, SchemeError>(
            SchemeError::Invalid,
        ),
{
}

/// Decoding the sections of the file that is written for a collection
/// gives the same schemes in the same order, where the schemes are
/// well-formed and the file can tell them apart.
pub proof fn lemma_sections_round_trip(schemes: Seq<Scheme>)
    requires
        all_wf(schemes),
        has_distinct_names(schemes),
    ensures
        schemes_of_sections(written_sections(schemes)) == Ok::<Seq<Scheme>, SchemeError>(schemes),
{
    let general: Seq<Section> = seq![(None, Map::empty())];
    let middle = schemes.map_values(|s: Scheme| (Some(s.name), first_values(entries_of(s))));
    let names: Seq<Section> = seq![(Some("Names"@), first_values(names_entries(schemes)))];
    let all = written_sections(schemes);
    assert(all == general + middle + names);
    assert(same_ignoring_case("Names"@, "Names"@));
    assert((general + middle + names).filter(keeps()) == middle) by {
        Seq::filter_distributes_over_add(general + middle, names, keeps());
        Seq::filter_distributes_over_add(general, middle, keeps());
        lemma_keeps_all(middle);
        assert(general.filter(keeps()) =~= Seq::<Section>::empty()) by {
            Seq::<Section>::empty().lemma_filter_push(general[0], keeps());
            reveal(Seq::filter);
            assert(Seq::<Section>::empty().push(general[0]) =~= general);
            assert(Seq::<Section>::empty().filter(keeps()) =~= Seq::<Section>::empty());
        }
        assert(names.filter(keeps()) =~= Seq::<Section>::empty()) by {
            Seq::<Section>::empty().lemma_filter_push(names[0], keeps());
            reveal(Seq::filter);
            assert(Seq::<Section>::empty().push(names[0]) =~= names);
            assert(Seq::<Section>::empty().filter(keeps()) =~= Seq::<Section>::empty());
        }
        assert(Seq::<Section>::empty() + middle + Seq::<Section>::empty() =~= middle);
    }
    let kept = all.filter(keeps());
    assert forall|i: int| 0 <= i < kept.len() implies is_readable(
        properties_for(all, #[trigger] kept[i]),
    ) && scheme_of(kept[i].0.unwrap(), properties_for(all, kept[i])) == schemes[i] by {
        assert(all[i + 1] == middle[i]);
        assert forall|j: int| 0 <= j < i + 1 implies (#[trigger] all[j]).0 != all[i + 1].0 by {
            if j > 0 {
                assert(all[j] == middle[j - 1]);
                assert(schemes[j - 1].name != schemes[i].name);
            }
        }
        lemma_first_section(all, i + 1);
        lemma_section_round_trip(schemes[i]);
    }
    assert(kept.map_values(|s: Section| scheme_of(s.0.unwrap(), properties_for(all, s)))
        =~= schemes);
}

/// Decoding the file that is written for a collection gives the same
/// schemes in the same order: where the schemes are well-formed and the file
/// can tell them apart, and where the reader of INI files hands out the
/// sections that were written.
pub proof fn lemma_round_trip(schemes: Seq<Scheme>)
    requires
        all_wf(schemes),
        has_distinct_names(schemes),
        ini_read(encoded(schemes)) == Some(written_sections(schemes)),
    ensures
        decoded(encoded(schemes)) == Ok::<Seq<Scheme>, SchemeError>(schemes),
{
    lemma_sections_round_trip(schemes);
}

impl ColorSchemes {
    /// Decodes an XShell file.
    pub fn from_xshell(s: &str) -> (r: Result<Box<ColorSchemes>, SchemeError>)
        ensures
            outcome(r) == decoded(s@),
            r matches Ok(schemes) ==> all_wf(schemes@),
    {
        match ini_load(s) {
            Some(conf) => ColorSchemes::from_xshell_ini(&conf),
            None => Err(SchemeError::Invalid),
        }
    }

    /// Decodes an XShell file that was read as an INI file.
    pub fn from_xshell_ini(conf: &ini::Ini) -> (r: Result<Box<ColorSchemes>, SchemeError>)
        ensures
            outcome(r) == schemes_of_sections(ini_sections(*conf)),
            r matches Ok(schemes) ==> all_wf(schemes@),
    {
        let names = ini_section_names(conf);
        let ghost sections = ini_sections(*conf);
        assert(names@.len() == sections.len()) by {
            assert(name_views(names@).len() == names_of(sections).len());
        }
        let mut v: Vec<ColorScheme> = Vec::new();
        let mut i: usize = 0;
        assert(sections.take(0).filter(keeps()) =~= Seq::<Section>::empty()) by {
            reveal(Seq::filter);
        }
        while i < names.len()
            invariant
                i <= names.len(),
                sections == ini_sections(*conf),
                names@.len() == sections.len(),
                name_views(names@) == names_of(sections),
                v@.len() == sections.take(i as int).filter(keeps()).len(),
                forall|j: int|
                    0 <= j < v@.len() ==> is_readable(
                        properties_for(
                            sections,
                            #[trigger] sections.take(i as int).filter(keeps())[j],
                        ),
                    ),
                forall|j: int|
                    0 <= j < v@.len() ==> (#[trigger] v@[j])@ == scheme_of(
                        sections.take(i as int).filter(keeps())[j].0.unwrap(),
                        properties_for(sections, sections.take(i as int).filter(keeps())[j]),
                    ) && v@[j]@.wf(),
            decreases names.len() - i,
        {
            let ghost before = sections.take(i as int);
            let ghost here = sections[i as int];
            proof {
                assert(sections.take(i + 1) =~= before.push(here));
                before.lemma_filter_push(here, keeps());
                assert(name_views(names@)[i as int] == names_of(sections)[i as int]);
            }
            match names[i] {
                Some(name) => {
                    if !eq_ignore_ascii_case(name, "Names") {
                        assert(is_scheme_section(here));
                        proof {
                            lemma_properties_of(sections, i as int);
                            sections.lemma_filter_contains(keeps(), i as int);
                        }
                        let props = match ini_section(conf, name) {
                            Some(p) => p,
                            None => {
                                return Err(SchemeError::Invalid);
                            },
                        };
                        match scheme_from_section(name, props) {
                            Ok(scheme) => {
                                v.push(scheme);
                            },
                            Err(e) => {
                                return Err(e);
                            },
                        }
                    }
                },
                None => {},
            }
            i += 1;
        }
        assert(sections.take(names.len() as int) =~= sections);
        let schemes = ColorSchemes::new(v);
        let ghost kept = sections.filter(keeps());
        assert(schemes@ =~= kept.map_values(
            |s: Section| scheme_of(s.0.unwrap(), properties_for(sections, s)),
        ));
        Ok(Box::new(schemes))
    }
}

} // verus!
