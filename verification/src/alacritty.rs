//! The Alacritty format: one scheme as a YAML document.
//!
//! A document to read holds, under `colors`, the mappings `primary`,
//! `normal` and `bright`, and in them one `#RRGGBB` string for each colour.

use crate::hex::{hash_repr, parse_hash, rgb_of_hash, to_hex_repr};
use crate::scheme::{outcome, ColorScheme, ColorSchemes, Scheme, SchemeError};
use crate::yaml::{
    is_plain, lemma_fresh_key, lookup, untagged, yaml_as_mapping, yaml_as_str, yaml_entries,
    yaml_from_str, yaml_get, yaml_insert, yaml_mapping, yaml_read, yaml_string, yaml_text,
    yaml_to_string, yaml_tree, yaml_with_capacity, Yaml,
};
use vstd::prelude::*;
use vstd::string::StringExecFns;

verus! {

/// The entries of the mapping that stands under `name` in the mapping `colors`.
pub open spec fn group(colors: Yaml, name: Seq<char>) -> Option<Seq<(Yaml, Yaml)>> {
    match untagged(colors) {
        Yaml::Table(entries) => match lookup(entries, name) {
            Some(inner) => match untagged(inner) {
                Yaml::Table(found) => Some(found),
                _ => None,
            },
            None => None,
        },
        _ => None,
    }
}

/// The colour that stands under `key` in `entries`, as a `#RRGGBB` string.
pub open spec fn color_in(entries: Seq<(Yaml, Yaml)>, key: Seq<char>) -> Option<u32> {
    match lookup(entries, key) {
        Some(value) => match untagged(value) {
            Yaml::Text(s) => rgb_of_hash(s),
            _ => None,
        },
        None => None,
    }
}

/// The colour that stands under `key` in the group `name` of `colors`.
pub open spec fn color_at(colors: Yaml, name: Seq<char>, key: Seq<char>) -> Option<u32> {
    match group(colors, name) {
        Some(entries) => color_in(entries, key),
        None => None,
    }
}

/// Whether `colors` holds every colour of a scheme.
pub open spec fn is_complete(colors: Yaml) -> bool {
    &&& color_at(colors, "normal"@, "black"@) is Some
    &&& color_at(colors, "normal"@, "red"@) is Some
    &&& color_at(colors, "normal"@, "green"@) is Some
    &&& color_at(colors, "normal"@, "yellow"@) is Some
    &&& color_at(colors, "normal"@, "blue"@) is Some
    &&& color_at(colors, "normal"@, "magenta"@) is Some
    &&& color_at(colors, "normal"@, "cyan"@) is Some
    &&& color_at(colors, "normal"@, "white"@) is Some
    &&& color_at(colors, "bright"@, "black"@) is Some
    &&& color_at(colors, "bright"@, "red"@) is Some
    &&& color_at(colors, "bright"@, "green"@) is Some
    &&& color_at(colors, "bright"@, "yellow"@) is Some
    &&& color_at(colors, "bright"@, "blue"@) is Some
    &&& color_at(colors, "bright"@, "magenta"@) is Some
    &&& color_at(colors, "bright"@, "cyan"@) is Some
    &&& color_at(colors, "bright"@, "white"@) is Some
    &&& color_at(colors, "primary"@, "background"@) is Some
    &&& color_at(colors, "primary"@, "foreground"@) is Some
}

/// The scheme that `colors` describes. The format names no scheme, so the
/// name is always `default`.
pub open spec fn scheme_of(colors: Yaml) -> Scheme {
    Scheme {
        name: "default"@,
        black: color_at(colors, "normal"@, "black"@).unwrap(),
        red: color_at(colors, "normal"@, "red"@).unwrap(),
        green: color_at(colors, "normal"@, "green"@).unwrap(),
        yellow: color_at(colors, "normal"@, "yellow"@).unwrap(),
        blue: color_at(colors, "normal"@, "blue"@).unwrap(),
        magenta: color_at(colors, "normal"@, "magenta"@).unwrap(),
        cyan: color_at(colors, "normal"@, "cyan"@).unwrap(),
        white: color_at(colors, "normal"@, "white"@).unwrap(),
        bright_black: color_at(colors, "bright"@, "black"@).unwrap(),
        bright_red: color_at(colors, "bright"@, "red"@).unwrap(),
        bright_green: color_at(colors, "bright"@, "green"@).unwrap(),
        bright_yellow: color_at(colors, "bright"@, "yellow"@).unwrap(),
        bright_blue: color_at(colors, "bright"@, "blue"@).unwrap(),
        bright_magenta: color_at(colors, "bright"@, "magenta"@).unwrap(),
        bright_cyan: color_at(colors, "bright"@, "cyan"@).unwrap(),
        bright_white: color_at(colors, "bright"@, "white"@).unwrap(),
        background: color_at(colors, "primary"@, "background"@).unwrap(),
        foreground: color_at(colors, "primary"@, "foreground"@).unwrap(),
    }
}

/// What a document with the given top-level entries decodes to: the one
/// scheme under `colors`, or `Invalid` where that key or any colour under
/// it is missing or is no `#RRGGBB` string.
pub open spec fn schemes_of_entries(top: Seq<(Yaml, Yaml)>) -> Result<Seq<Scheme>, SchemeError> {
    match lookup(top, "colors"@) {
        Some(colors) => if is_complete(colors) {
            Ok(seq![scheme_of(colors)])
        } else {
            Err(SchemeError::Invalid)
        },
        None => Err(SchemeError::Invalid),
    }
}

/// What a text decodes to: `Invalid` where it is no YAML map from strings,
/// else what its entries decode to.
pub open spec fn decoded(text: Seq<char>) -> Result<Seq<Scheme>, SchemeError> {
    match yaml_read(text) {
        Some(top) => schemes_of_entries(top),
        None => Err(SchemeError::Invalid),
    }
}

/// The entry that holds one colour under its name.
pub open spec fn color_entry(key: Seq<char>, color: u32) -> (Yaml, Yaml) {
    (Yaml::Text(key), Yaml::Text(hash_repr(color)))
}

/// The entries of `primary` for a scheme.
pub open spec fn primary_entries(s: Scheme) -> Seq<(Yaml, Yaml)> {
    seq![
        color_entry("foreground"@, s.foreground),
        color_entry("background"@, s.background),
    ]
}

/// The entries of `normal` for a scheme.
pub open spec fn normal_entries(s: Scheme) -> Seq<(Yaml, Yaml)> {
    seq![
        color_entry("black"@, s.black),
        color_entry("red"@, s.red),
        color_entry("green"@, s.green),
        color_entry("yellow"@, s.yellow),
        color_entry("blue"@, s.blue),
        color_entry("magenta"@, s.magenta),
        color_entry("cyan"@, s.cyan),
        color_entry("white"@, s.white),
    ]
}

/// The entries of `bright` for a scheme.
pub open spec fn bright_entries(s: Scheme) -> Seq<(Yaml, Yaml)> {
    seq![
        color_entry("black"@, s.bright_black),
        color_entry("red"@, s.bright_red),
        color_entry("green"@, s.bright_green),
        color_entry("yellow"@, s.bright_yellow),
        color_entry("blue"@, s.bright_blue),
        color_entry("magenta"@, s.bright_magenta),
        color_entry("cyan"@, s.bright_cyan),
        color_entry("white"@, s.bright_white),
    ]
}

/// The top-level entries of the document written for a scheme: `color`
/// alone, with the three groups under it.
pub open spec fn document_entries(s: Scheme) -> Seq<(Yaml, Yaml)> {
    seq![
        (
            Yaml::Text("color"@),
            Yaml::Table(
                seq![
                    (Yaml::Text("primary"@), Yaml::Table(primary_entries(s))),
                    (Yaml::Text("normal"@), Yaml::Table(normal_entries(s))),
                    (Yaml::Text("bright"@), Yaml::Table(bright_entries(s))),
                ],
            ),
        ),
    ]
}

/// The text written for a collection: one document for each scheme, in
/// order, and nothing between them.
pub open spec fn encoded(schemes: Seq<Scheme>) -> Seq<char>
    decreases schemes.len(),
{
    if schemes.len() == 0 {
        Seq::empty()
    } else {
        encoded(schemes.drop_last()) + yaml_text(document_entries(schemes.last()))
    }
}

/// Whatever a text holds, it decodes to exactly one scheme, called
/// `default`, or it is `Invalid`.
pub proof fn lemma_one_scheme_called_default(text: Seq<char>)
    ensures
        match decoded(text) {
            Ok(schemes) => schemes.len() == 1 && schemes[0].name == "default"@ && schemes[0].wf(),
            Err(e) => e == SchemeError::Invalid,
        },
{
}

/// The mapping under `name` in `colors`.
fn find_group<'a>(
    colors: &'a serde_yaml::Value,
    name: &str,
) -> (r: Result<&'a serde_yaml::Mapping, SchemeError>)
    ensures
        match r {
            Ok(m) => group(yaml_tree(*colors), name@) == Some(yaml_entries(*m)),
            Err(e) => e == SchemeError::Invalid && group(yaml_tree(*colors), name@) is None,
        },
{
    let outer = match yaml_as_mapping(colors) {
        Some(m) => m,
        None => {
            return Err(SchemeError::Invalid);
        },
    };
    let inner = match yaml_get(outer, name) {
        Some(v) => v,
        None => {
            return Err(SchemeError::Invalid);
        },
    };
    match yaml_as_mapping(inner) {
        Some(m) => Ok(m),
        None => Err(SchemeError::Invalid),
    }
}

/// The colour under `key` in a group.
fn find_color(entries: &serde_yaml::Mapping, key: &str) -> (r: Result<u32, SchemeError>)
    ensures
        match r {
            Ok(c) => color_in(yaml_entries(*entries), key@) == Some(c),
            Err(e) => e == SchemeError::Invalid && color_in(yaml_entries(*entries), key@) is None,
        },
{
    let value = match yaml_get(entries, key) {
        Some(v) => v,
        None => {
            return Err(SchemeError::Invalid);
        },
    };
    let text = match yaml_as_str(value) {
        Some(s) => s,
        None => {
            return Err(SchemeError::Invalid);
        },
    };
    match parse_hash(text) {
        Some(c) => Ok(c),
        None => Err(SchemeError::Invalid),
    }
}

/// What tells the keys of a document apart: no two of one mapping have both
/// the same length and the same first letter.
proof fn lemma_keys()
    ensures
        "foreground"@.len() == 10 && "foreground"@[0] == 'f',
        "background"@.len() == 10 && "background"@[0] == 'b',
        "black"@.len() == 5 && "black"@[0] == 'b',
        "red"@.len() == 3,
        "green"@.len() == 5 && "green"@[0] == 'g',
        "yellow"@.len() == 6,
        "blue"@.len() == 4 && "blue"@[0] == 'b',
        "magenta"@.len() == 7,
        "cyan"@.len() == 4 && "cyan"@[0] == 'c',
        "white"@.len() == 5 && "white"@[0] == 'w',
        "primary"@.len() == 7,
        "normal"@.len() == 6 && "normal"@[0] == 'n',
        "bright"@.len() == 6 && "bright"@[0] == 'b',
{
    reveal_strlit("foreground");
    reveal_strlit("background");
    reveal_strlit("black");
    reveal_strlit("red");
    reveal_strlit("green");
    reveal_strlit("yellow");
    reveal_strlit("blue");
    reveal_strlit("magenta");
    reveal_strlit("cyan");
    reveal_strlit("white");
    reveal_strlit("primary");
    reveal_strlit("normal");
    reveal_strlit("bright");
}

/// Puts a colour under a key that the mapping does not hold yet.
fn put_color(m: &mut serde_yaml::Mapping, key: &str, color: u32)
    requires
        forall|i: int|
            0 <= i < yaml_entries(*old(m)).len() ==> (#[trigger] yaml_entries(*old(m))[i]).0
                != Yaml::Text(key@),
    ensures
        yaml_entries(*final(m)) == yaml_entries(*old(m)).push(color_entry(key@, color)),
{
    let k = yaml_string(key.to_owned());
    let v = yaml_string(to_hex_repr(color));
    proof {
        lemma_fresh_key(yaml_entries(*m), yaml_tree(k), yaml_tree(v));
    }
    yaml_insert(m, k, v);
}

/// Puts a mapping under a key that the mapping `m` does not hold yet.
fn put_group(m: &mut serde_yaml::Mapping, key: &str, group: serde_yaml::Mapping)
    requires
        forall|i: int|
            0 <= i < yaml_entries(*old(m)).len() ==> (#[trigger] yaml_entries(*old(m))[i]).0
                != Yaml::Text(key@),
    ensures
        yaml_entries(*final(m)) == yaml_entries(*old(m)).push(
            (Yaml::Text(key@), Yaml::Table(yaml_entries(group))),
        ),
{
    let k = yaml_string(key.to_owned());
    let v = yaml_mapping(group);
    proof {
        lemma_fresh_key(yaml_entries(*m), yaml_tree(k), yaml_tree(v));
    }
    yaml_insert(m, k, v);
}

/// The document written for a scheme holds strings and mappings only.
pub proof fn lemma_document_is_plain(s: Scheme)
    ensures
        is_plain(Yaml::Table(document_entries(s))),
{
    let primary = Yaml::Table(primary_entries(s));
    let normal = Yaml::Table(normal_entries(s));
    let bright = Yaml::Table(bright_entries(s));
    assert(is_plain(primary)) by {
        assert forall|i: int| 0 <= i < primary_entries(s).len() implies is_plain(
            (#[trigger] primary_entries(s)[i]).0,
        ) && is_plain(primary_entries(s)[i].1) by {}
    }
    assert(is_plain(normal)) by {
        assert forall|i: int| 0 <= i < normal_entries(s).len() implies is_plain(
            (#[trigger] normal_entries(s)[i]).0,
        ) && is_plain(normal_entries(s)[i].1) by {}
    }
    assert(is_plain(bright)) by {
        assert forall|i: int| 0 <= i < bright_entries(s).len() implies is_plain(
            (#[trigger] bright_entries(s)[i]).0,
        ) && is_plain(bright_entries(s)[i].1) by {}
    }
    let groups = seq![
        (Yaml::Text("primary"@), primary),
        (Yaml::Text("normal"@), normal),
        (Yaml::Text("bright"@), bright),
    ];
    assert(is_plain(Yaml::Table(groups))) by {
        assert forall|i: int| 0 <= i < groups.len() implies is_plain((#[trigger] groups[i]).0)
            && is_plain(groups[i].1) by {}
    }
    assert(document_entries(s) == seq![(Yaml::Text("color"@), Yaml::Table(groups))]);
    assert forall|i: int| 0 <= i < document_entries(s).len() implies is_plain(
        (#[trigger] document_entries(s)[i]).0,
    ) && is_plain(document_entries(s)[i].1) by {}
}

/// The document for one scheme.
fn document(scheme: &ColorScheme) -> (root: serde_yaml::Mapping)
    ensures
        yaml_entries(root) == document_entries(scheme@),
{
    proof {
        lemma_keys();
    }
    let mut primary = yaml_with_capacity(2);
    put_color(&mut primary, "foreground", scheme.foreground);
    put_color(&mut primary, "background", scheme.background);
    assert(yaml_entries(primary) =~= primary_entries(scheme@));
    let mut normal = yaml_with_capacity(8);
    put_color(&mut normal, "black", scheme.black);
    put_color(&mut normal, "red", scheme.red);
    put_color(&mut normal, "green", scheme.green);
    put_color(&mut normal, "yellow", scheme.yellow);
    put_color(&mut normal, "blue", scheme.blue);
    put_color(&mut normal, "magenta", scheme.magenta);
    put_color(&mut normal, "cyan", scheme.cyan);
    put_color(&mut normal, "white", scheme.white);
    assert(yaml_entries(normal) =~= normal_entries(scheme@));
    let mut bright = yaml_with_capacity(8);
    put_color(&mut bright, "black", scheme.bright_black);
    put_color(&mut bright, "red", scheme.bright_red);
    put_color(&mut bright, "green", scheme.bright_green);
    put_color(&mut bright, "yellow", scheme.bright_yellow);
    put_color(&mut bright, "blue", scheme.bright_blue);
    put_color(&mut bright, "magenta", scheme.bright_magenta);
    put_color(&mut bright, "cyan", scheme.bright_cyan);
    put_color(&mut bright, "white", scheme.bright_white);
    assert(yaml_entries(bright) =~= bright_entries(scheme@));
    let mut color = yaml_with_capacity(3);
    put_group(&mut color, "primary", primary);
    put_group(&mut color, "normal", normal);
    put_group(&mut color, "bright", bright);
    assert(yaml_entries(color) =~= seq![
        (Yaml::Text("primary"@), Yaml::Table(primary_entries(scheme@))),
        (Yaml::Text("normal"@), Yaml::Table(normal_entries(scheme@))),
        (Yaml::Text("bright"@), Yaml::Table(bright_entries(scheme@))),
    ]);
    let mut root = yaml_with_capacity(1);
    put_group(&mut root, "color", color);
    assert(yaml_entries(root) =~= document_entries(scheme@));
    root
}

impl ColorSchemes {
    /// Encodes the collection as Alacritty documents, one for each scheme.
    pub fn to_alacritty(&self) -> (r: Box<String>)
        ensures
            r@ == encoded(self@),
    {
        let mut out = String::new();
        let n = self.0.len();
        let mut i: usize = 0;
        while i < n
            invariant
                i <= n,
                n == self.0.len(),
                out@ == encoded(self@.take(i as int)),
            decreases n - i,
        {
            let root = document(&self.0[i]);
            proof {
                lemma_document_is_plain(self.0[i as int]@);
            }
            let text = yaml_to_string(&root);
            out.append(text.as_str());
            proof {
                let next = self@.take(i + 1);
                assert(next.drop_last() =~= self@.take(i as int));
                assert(next.last() == self.0[i as int]@);
            }
            i += 1;
        }
        assert(self@.take(n as int) =~= self@);
        Box::new(out)
    }

    /// Decodes an Alacritty document.
    pub fn from_alacritty(s: &str) -> (r: Result<Box<ColorSchemes>, SchemeError>)
        ensures
            outcome(r) == decoded(s@),
            r matches Ok(schemes) ==> schemes@.len() == 1 && schemes@[0].name == "default"@
                && schemes@[0].wf(),
    {
        match yaml_from_str(s) {
            Some(top) => ColorSchemes::from_alacritty_entries(&top),
            None => Err(SchemeError::Invalid),
        }
    }

    /// Decodes the top-level mapping of an Alacritty document.
    pub fn from_alacritty_entries(
        top: &serde_yaml::Mapping,
    ) -> (r: Result<Box<ColorSchemes>, SchemeError>)
        ensures
            outcome(r) == schemes_of_entries(yaml_entries(*top)),
            r matches Ok(schemes) ==> schemes@.len() == 1 && schemes@[0].name == "default"@
                && schemes@[0].wf(),
    {
        let colors = match yaml_get(top, "colors") {
            Some(v) => v,
            None => {
                return Err(SchemeError::Invalid);
            },
        };
        let primary = find_group(colors, "primary")?;
        let normal = find_group(colors, "normal")?;
        let bright = find_group(colors, "bright")?;
        let scheme = ColorScheme {
            name: "default".to_owned(),
            black: find_color(normal, "black")?,
            red: find_color(normal, "red")?,
            green: find_color(normal, "green")?,
            yellow: find_color(normal, "yellow")?,
            blue: find_color(normal, "blue")?,
            magenta: find_color(normal, "magenta")?,
            cyan: find_color(normal, "cyan")?,
            white: find_color(normal, "white")?,
            bright_black: find_color(bright, "black")?,
            bright_red: find_color(bright, "red")?,
            bright_green: find_color(bright, "green")?,
            bright_yellow: find_color(bright, "yellow")?,
            bright_blue: find_color(bright, "blue")?,
            bright_magenta: find_color(bright, "magenta")?,
            bright_cyan: find_color(bright, "cyan")?,
            bright_white: find_color(bright, "white")?,
            background: find_color(primary, "background")?,
            foreground: find_color(primary, "foreground")?,
        };
        assert(scheme@ == scheme_of(yaml_tree(*colors)));
        let mut v: Vec<ColorScheme> = Vec::new();
        v.push(scheme);
        let schemes = ColorSchemes::new(v);
        assert(schemes@ =~= seq![scheme_of(yaml_tree(*colors))]);
        Ok(Box::new(schemes))
    }
}

} // verus!
