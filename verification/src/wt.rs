//! The Windows Terminal format: a JSON object whose `schemes` array holds
//! one object for each scheme, with its `name` and its colours as `#RRGGBB`
//! strings.

use crate::hex::{
    hash_repr, is_digit_of_case, lemma_hash_repr, parse_hash, rgb_of_hash, to_hex_repr,
};
use crate::json::{
    is_plain, json_array, json_as_array, json_as_str, json_from_str, json_get, json_insert,
    json_map_new, json_members, json_object, json_pretty, json_read, json_string,
    json_to_string_pretty, json_tree, json_trees, member, no_members, Json, JsonMap,
};
use crate::scheme::{all_wf, outcome, ColorScheme, ColorSchemes, Scheme, SchemeError};
use vstd::prelude::*;

verus! {

/// Where the schema of the written document is published.
pub open spec fn schema_url() -> Seq<char> {
    "https://aka.ms/terminal-profiles-schema"@
}

/// The string under `key` in an object.
pub open spec fn text_at(entry: Json, key: Seq<char>) -> Option<Seq<char>> {
    match member(entry, key) {
        Some(Json::Text(s)) => Some(s),
        _ => None,
    }
}

/// The colour under `key` in an object, written as `#RRGGBB`.
pub open spec fn color_at(entry: Json, key: Seq<char>) -> Option<u32> {
    match text_at(entry, key) {
        Some(s) => rgb_of_hash(s),
        None => None,
    }
}

/// Whether an element of `schemes` holds a name and every colour.
pub open spec fn is_complete(entry: Json) -> bool {
    &&& text_at(entry, "name"@) is Some
    &&& color_at(entry, "black"@) is Some
    &&& color_at(entry, "red"@) is Some
    &&& color_at(entry, "green"@) is Some
    &&& color_at(entry, "yellow"@) is Some
    &&& color_at(entry, "blue"@) is Some
    &&& color_at(entry, "purple"@) is Some
    &&& color_at(entry, "cyan"@) is Some
    &&& color_at(entry, "white"@) is Some
    &&& color_at(entry, "brightBlack"@) is Some
    &&& color_at(entry, "brightRed"@) is Some
    &&& color_at(entry, "brightGreen"@) is Some
    &&& color_at(entry, "brightYellow"@) is Some
    &&& color_at(entry, "brightBlue"@) is Some
    &&& color_at(entry, "brightPurple"@) is Some
    &&& color_at(entry, "brightCyan"@) is Some
    &&& color_at(entry, "brightWhite"@) is Some
    &&& color_at(entry, "background"@) is Some
    &&& color_at(entry, "foreground"@) is Some
}

/// The scheme that an element of `schemes` describes.
pub open spec fn scheme_of(entry: Json) -> Scheme {
    Scheme {
        name: text_at(entry, "name"@).unwrap(),
        black: color_at(entry, "black"@).unwrap(),
        red: color_at(entry, "red"@).unwrap(),
        green: color_at(entry, "green"@).unwrap(),
        yellow: color_at(entry, "yellow"@).unwrap(),
        blue: color_at(entry, "blue"@).unwrap(),
        magenta: color_at(entry, "purple"@).unwrap(),
        cyan: color_at(entry, "cyan"@).unwrap(),
        white: color_at(entry, "white"@).unwrap(),
        bright_black: color_at(entry, "brightBlack"@).unwrap(),
        bright_red: color_at(entry, "brightRed"@).unwrap(),
        bright_green: color_at(entry, "brightGreen"@).unwrap(),
        bright_yellow: color_at(entry, "brightYellow"@).unwrap(),
        bright_blue: color_at(entry, "brightBlue"@).unwrap(),
        bright_magenta: color_at(entry, "brightPurple"@).unwrap(),
        bright_cyan: color_at(entry, "brightCyan"@).unwrap(),
        bright_white: color_at(entry, "brightWhite"@).unwrap(),
        background: color_at(entry, "background"@).unwrap(),
        foreground: color_at(entry, "foreground"@).unwrap(),
    }
}

/// What the elements of `schemes` decode to: their schemes in the same
/// order, or `Invalid` where any of them lacks a name or a colour.
pub open spec fn schemes_of_items(items: Seq<Json>) -> Result<Seq<Scheme>, SchemeError> {
    if forall|i: int| 0 <= i < items.len() ==> is_complete(#[trigger] items[i]) {
        Ok(items.map_values(|entry: Json| scheme_of(entry)))
    } else {
        Err(SchemeError::Invalid)
    }
}

/// The elements of the array under `schemes` in a document.
pub open spec fn items_of(doc: Json) -> Option<Seq<Json>> {
    match member(doc, "schemes"@) {
        Some(Json::List(items)) => Some(items),
        _ => None,
    }
}

/// What a document decodes to: `Invalid` unless it is an object with an
/// array under `schemes`, else what the elements of that array decode to.
pub open spec fn schemes_of_tree(doc: Json) -> Result<Seq<Scheme>, SchemeError> {
    match items_of(doc) {
        Some(items) => schemes_of_items(items),
        None => Err(SchemeError::Invalid),
    }
}

/// What a text decodes to: `Invalid` where it is no JSON, else what the
/// document decodes to.
pub open spec fn decoded(text: Seq<char>) -> Result<Seq<Scheme>, SchemeError> {
    match json_read(text) {
        Some(doc) => schemes_of_tree(doc),
        None => Err(SchemeError::Invalid),
    }
}

/// The members of the object written for a scheme. The cursor and the
/// selection take the foreground colour.
pub open spec fn members_of(s: Scheme) -> Map<Seq<char>, Json> {
    no_members().insert("name"@, Json::Text(s.name))
        .insert("background"@, Json::Text(hash_repr(s.background)))
        .insert("black"@, Json::Text(hash_repr(s.black)))
        .insert("blue"@, Json::Text(hash_repr(s.blue)))
        .insert("brightBlack"@, Json::Text(hash_repr(s.bright_black)))
        .insert("brightBlue"@, Json::Text(hash_repr(s.bright_blue)))
        .insert("brightCyan"@, Json::Text(hash_repr(s.bright_cyan)))
        .insert("brightGreen"@, Json::Text(hash_repr(s.bright_green)))
        .insert("brightPurple"@, Json::Text(hash_repr(s.bright_magenta)))
        .insert("brightRed"@, Json::Text(hash_repr(s.bright_red)))
        .insert("brightWhite"@, Json::Text(hash_repr(s.bright_white)))
        .insert("brightYellow"@, Json::Text(hash_repr(s.bright_yellow)))
        .insert("cursorColor"@, Json::Text(hash_repr(s.foreground)))
        .insert("cyan"@, Json::Text(hash_repr(s.cyan)))
        .insert("foreground"@, Json::Text(hash_repr(s.foreground)))
        .insert("green"@, Json::Text(hash_repr(s.green)))
        .insert("purple"@, Json::Text(hash_repr(s.magenta)))
        .insert("red"@, Json::Text(hash_repr(s.red)))
        .insert("selectionBackground"@, Json::Text(hash_repr(s.foreground)))
        .insert("white"@, Json::Text(hash_repr(s.white)))
        .insert("yellow"@, Json::Text(hash_repr(s.yellow)))
}

/// The document written for a collection.
pub open spec fn document_of(schemes: Seq<Scheme>) -> Json {
    Json::Table(
        no_members().insert("$schema"@, Json::Text(schema_url())).insert(
            "schemes"@,
            Json::List(schemes.map_values(|s: Scheme| Json::Table(members_of(s)))),
        ),
    )
}

/// The text written for a collection.
pub open spec fn encoded(schemes: Seq<Scheme>) -> Seq<char> {
    json_pretty(document_of(schemes))
}

/// An object whose members are all strings.
pub open spec fn all_text(members: Map<Seq<char>, Json>) -> bool {
    forall|k: Seq<char>| members.dom().contains(k) ==> (#[trigger] members[k]) is Text
}

/// Puts a string under a key.
fn put_text(m: &mut JsonMap, key: &str, text: String)
    requires
        all_text(json_members(*old(m))),
    ensures
        json_members(*final(m)) == json_members(*old(m)).insert(key@, Json::Text(text@)),
        all_text(json_members(*final(m))),
{
    json_insert(m, key.to_owned(), json_string(text));
}

/// Puts a colour under a key.
fn put_color(m: &mut JsonMap, key: &str, color: u32)
    requires
        all_text(json_members(*old(m))),
    ensures
        json_members(*final(m)) == json_members(*old(m)).insert(
            key@,
            Json::Text(hash_repr(color)),
        ),
        all_text(json_members(*final(m))),
{
    put_text(m, key, to_hex_repr(color));
}

/// The object for one scheme.
fn entry_of(scheme: &ColorScheme) -> (v: serde_json::Value)
    ensures
        json_tree(v) == Json::Table(members_of(scheme@)),
        is_plain(json_tree(v)),
{
    let mut m = json_map_new();
    put_text(&mut m, "name", scheme.name.clone());
    put_color(&mut m, "background", scheme.background);
    put_color(&mut m, "black", scheme.black);
    put_color(&mut m, "blue", scheme.blue);
    put_color(&mut m, "brightBlack", scheme.bright_black);
    put_color(&mut m, "brightBlue", scheme.bright_blue);
    put_color(&mut m, "brightCyan", scheme.bright_cyan);
    put_color(&mut m, "brightGreen", scheme.bright_green);
    put_color(&mut m, "brightPurple", scheme.bright_magenta);
    put_color(&mut m, "brightRed", scheme.bright_red);
    put_color(&mut m, "brightWhite", scheme.bright_white);
    put_color(&mut m, "brightYellow", scheme.bright_yellow);
    put_color(&mut m, "cursorColor", scheme.foreground);
    put_color(&mut m, "cyan", scheme.cyan);
    put_color(&mut m, "foreground", scheme.foreground);
    put_color(&mut m, "green", scheme.green);
    put_color(&mut m, "purple", scheme.magenta);
    put_color(&mut m, "red", scheme.red);
    put_color(&mut m, "selectionBackground", scheme.foreground);
    put_color(&mut m, "white", scheme.white);
    put_color(&mut m, "yellow", scheme.yellow);
    let v = json_object(m);
    assert(is_plain(json_tree(v))) by {
        assert forall|k: Seq<char>| members_of(scheme@).dom().contains(k) implies is_plain(
            #[trigger] members_of(scheme@)[k],
        ) by {
            assert(members_of(scheme@)[k] is Text);
        }
    }
    v
}

/// The string under `key`.
fn find_text<'a>(entry: &'a serde_json::Value, key: &str) -> (r: Result<&'a str, SchemeError>)
    ensures
        match r {
            Ok(s) => text_at(json_tree(*entry), key@) == Some(s@),
            Err(e) => e == SchemeError::Invalid && text_at(json_tree(*entry), key@) is None,
        },
{
    let value = match json_get(entry, key) {
        Some(v) => v,
        None => {
            return Err(SchemeError::Invalid);
        },
    };
    match json_as_str(value) {
        Some(s) => Ok(s),
        None => Err(SchemeError::Invalid),
    }
}

/// The colour under `key`.
fn find_color(entry: &serde_json::Value, key: &str) -> (r: Result<u32, SchemeError>)
    ensures
        match r {
            Ok(c) => color_at(json_tree(*entry), key@) == Some(c),
            Err(e) => e == SchemeError::Invalid && color_at(json_tree(*entry), key@) is None,
        },
{
    let text = find_text(entry, key)?;
    match parse_hash(text) {
        Some(c) => Ok(c),
        None => Err(SchemeError::Invalid),
    }
}

/// The scheme that one element of `schemes` describes.
fn scheme_from_entry(entry: &serde_json::Value) -> (r: Result<ColorScheme, SchemeError>)
    ensures
        match r {
            Ok(scheme) => is_complete(json_tree(*entry)) && scheme@ == scheme_of(json_tree(*entry))
                && scheme@.wf(),
            Err(e) => e == SchemeError::Invalid && !is_complete(json_tree(*entry)),
        },
{
    let scheme = ColorScheme {
        name: find_text(entry, "name")?.to_owned(),
        black: find_color(entry, "black")?,
        red: find_color(entry, "red")?,
        green: find_color(entry, "green")?,
        yellow: find_color(entry, "yellow")?,
        blue: find_color(entry, "blue")?,
        magenta: find_color(entry, "purple")?,
        cyan: find_color(entry, "cyan")?,
        white: find_color(entry, "white")?,
        bright_black: find_color(entry, "brightBlack")?,
        bright_red: find_color(entry, "brightRed")?,
        bright_green: find_color(entry, "brightGreen")?,
        bright_yellow: find_color(entry, "brightYellow")?,
        bright_blue: find_color(entry, "brightBlue")?,
        bright_magenta: find_color(entry, "brightPurple")?,
        bright_cyan: find_color(entry, "brightCyan")?,
        bright_white: find_color(entry, "brightWhite")?,
        background: find_color(entry, "background")?,
        foreground: find_color(entry, "foreground")?,
    };
    Ok(scheme)
}

/// What tells the keys of a scheme apart: their lengths and, among keys
/// of one length, the first letter or the seventh.
proof fn lemma_keys()
    ensures
        "name"@.len() == 4 && "name"@[0] == 'n',
        "background"@.len() == 10 && "background"@[0] == 'b' && "background"@[6] == 'o',
        "black"@.len() == 5 && "black"@[0] == 'b',
        "blue"@.len() == 4 && "blue"@[0] == 'b',
        "brightBlack"@.len() == 11 && "brightBlack"@[0] == 'b' && "brightBlack"@[6] == 'B',
        "brightBlue"@.len() == 10 && "brightBlue"@[0] == 'b' && "brightBlue"@[6] == 'B',
        "brightCyan"@.len() == 10 && "brightCyan"@[0] == 'b' && "brightCyan"@[6] == 'C',
        "brightGreen"@.len() == 11 && "brightGreen"@[0] == 'b' && "brightGreen"@[6] == 'G',
        "brightPurple"@.len() == 12 && "brightPurple"@[0] == 'b' && "brightPurple"@[6] == 'P',
        "brightRed"@.len() == 9,
        "brightWhite"@.len() == 11 && "brightWhite"@[0] == 'b' && "brightWhite"@[6] == 'W',
        "brightYellow"@.len() == 12 && "brightYellow"@[0] == 'b' && "brightYellow"@[6] == 'Y',
        "cursorColor"@.len() == 11 && "cursorColor"@[0] == 'c',
        "cyan"@.len() == 4 && "cyan"@[0] == 'c',
        "foreground"@.len() == 10 && "foreground"@[0] == 'f',
        "green"@.len() == 5 && "green"@[0] == 'g',
        "purple"@.len() == 6 && "purple"@[0] == 'p',
        "red"@.len() == 3,
        "selectionBackground"@.len() == 19,
        "white"@.len() == 5 && "white"@[0] == 'w',
        "yellow"@.len() == 6 && "yellow"@[0] == 'y',
{
    reveal_strlit("name");
    reveal_strlit("background");
    reveal_strlit("black");
    reveal_strlit("blue");
    reveal_strlit("brightBlack");
    reveal_strlit("brightBlue");
    reveal_strlit("brightCyan");
    reveal_strlit("brightGreen");
    reveal_strlit("brightPurple");
    reveal_strlit("brightRed");
    reveal_strlit("brightWhite");
    reveal_strlit("brightYellow");
    reveal_strlit("cursorColor");
    reveal_strlit("cyan");
    reveal_strlit("foreground");
    reveal_strlit("green");
    reveal_strlit("purple");
    reveal_strlit("red");
    reveal_strlit("selectionBackground");
    reveal_strlit("white");
    reveal_strlit("yellow");
}

/// The object written for a scheme holds its name and every colour, and
/// reads back as the scheme.
pub proof fn lemma_entry_round_trip(s: Scheme)
    requires
        s.wf(),
    ensures
        is_complete(Json::Table(members_of(s))),
        scheme_of(Json::Table(members_of(s))) == s,
{
    lemma_keys();
    lemma_hash_repr(s.black);
    lemma_hash_repr(s.red);
    lemma_hash_repr(s.green);
    lemma_hash_repr(s.yellow);
    lemma_hash_repr(s.blue);
    lemma_hash_repr(s.magenta);
    lemma_hash_repr(s.cyan);
    lemma_hash_repr(s.white);
    lemma_hash_repr(s.bright_black);
    lemma_hash_repr(s.bright_red);
    lemma_hash_repr(s.bright_green);
    lemma_hash_repr(s.bright_yellow);
    lemma_hash_repr(s.bright_blue);
    lemma_hash_repr(s.bright_magenta);
    lemma_hash_repr(s.bright_cyan);
    lemma_hash_repr(s.bright_white);
    lemma_hash_repr(s.background);
    lemma_hash_repr(s.foreground);
}

/// Decoding the document that is written for a collection of well-formed
/// schemes gives the same schemes in the same order.
pub proof fn lemma_document_round_trip(schemes: Seq<Scheme>)
    requires
        all_wf(schemes),
    ensures
        schemes_of_tree(document_of(schemes)) == Ok::<Seq<Scheme>, SchemeError>(schemes),
{
    reveal_strlit("$schema");
    reveal_strlit("schemes");
    assert("$schema"@[0] != "schemes"@[0]);
    let items = schemes.map_values(|s: Scheme| Json::Table(members_of(s)));
    assert(items_of(document_of(schemes)) == Some(items));
    assert forall|i: int| 0 <= i < items.len() implies is_complete(#[trigger] items[i]) by {
        lemma_entry_round_trip(schemes[i]);
    }
    assert(items.map_values(|entry: Json| scheme_of(entry)) =~= schemes) by {
        assert forall|i: int| 0 <= i < schemes.len() implies items.map_values(
            |entry: Json| scheme_of(entry),
        )[i] == schemes[i] by {
            lemma_entry_round_trip(schemes[i]);
        }
    }
}

/// Decoding the text that is written for a collection gives the same
/// schemes in the same order: where the schemes are well-formed, and where
/// the reader of JSON hands out the document that was written.
pub proof fn lemma_round_trip(schemes: Seq<Scheme>)
    requires
        all_wf(schemes),
        json_read(encoded(schemes)) == Some(document_of(schemes)),
    ensures
        decoded(encoded(schemes)) == Ok::<Seq<Scheme>, SchemeError>(schemes),
{
    lemma_document_round_trip(schemes);
}

/// Every colour of a well-formed scheme is written as `#` and six
/// hexadecimal digits in upper case.
pub proof fn lemma_colours_are_upper_case(s: Scheme, key: Seq<char>)
    requires
        s.wf(),
        members_of(s).dom().contains(key),
        key != "name"@,
    ensures
        members_of(s)[key] is Text,
        members_of(s)[key]->Text_0.len() == 7,
        members_of(s)[key]->Text_0[0] == '#',
        forall|i: int|
            1 <= i < 7 ==> is_digit_of_case(#[trigger] members_of(s)[key]->Text_0[i], true),
{
    lemma_hash_repr(s.black);
    lemma_hash_repr(s.red);
    lemma_hash_repr(s.green);
    lemma_hash_repr(s.yellow);
    lemma_hash_repr(s.blue);
    lemma_hash_repr(s.magenta);
    lemma_hash_repr(s.cyan);
    lemma_hash_repr(s.white);
    lemma_hash_repr(s.bright_black);
    lemma_hash_repr(s.bright_red);
    lemma_hash_repr(s.bright_green);
    lemma_hash_repr(s.bright_yellow);
    lemma_hash_repr(s.bright_blue);
    lemma_hash_repr(s.bright_magenta);
    lemma_hash_repr(s.bright_cyan);
    lemma_hash_repr(s.bright_white);
    lemma_hash_repr(s.background);
    lemma_hash_repr(s.foreground);
}

/// A document without an array under `schemes` is `Invalid`, never an
/// empty collection.
pub proof fn lemma_without_schemes_is_invalid(doc: Json)
    requires
        !(member(doc, "schemes"@) matches Some(Json::List(_))),
    ensures
        schemes_of_tree(doc) == Err::<Seq<Scheme>, SchemeError>(SchemeError::Invalid),
{
}

/// A text decodes to as many schemes as the array under `schemes` has
/// elements, where it is JSON with such an array and every element holds a
/// name and every colour. Any other text is `Invalid`.
pub proof fn lemma_malformed_is_invalid(text: Seq<char>)
    ensures
        match decoded(text) {
            Ok(schemes) => json_read(text) matches Some(doc) && items_of(doc) matches Some(items)
                && schemes.len() == items.len() && forall|i: int|
                0 <= i < items.len() ==> is_complete(#[trigger] items[i]),
            Err(e) => e == SchemeError::Invalid,
        },
{
}

impl ColorSchemes {
    /// Encodes the collection as a Windows Terminal document.
    pub fn to_wt(&self) -> (r: Box<String>)
        ensures
            r@ == encoded(self@),
    {
        let n = self.0.len();
        let mut items: Vec<serde_json::Value> = Vec::new();
        let mut i: usize = 0;
        while i < n
            invariant
                i <= n,
                n == self.0.len(),
                items@.len() == i,
                forall|j: int|
                    0 <= j < i ==> json_tree(#[trigger] items@[j]) == Json::Table(
                        members_of(self@[j]),
                    ),
                forall|j: int| 0 <= j < i ==> is_plain(json_tree(#[trigger] items@[j])),
            decreases n - i,
        {
            let entry = entry_of(&self.0[i]);
            items.push(entry);
            i += 1;
        }
        let ghost written = self@.map_values(|s: Scheme| Json::Table(members_of(s)));
        assert(json_trees(items@) =~= written);
        let mut top = json_map_new();
        let url = "https://aka.ms/terminal-profiles-schema";
        json_insert(&mut top, "$schema".to_owned(), json_string(url.to_owned()));
        json_insert(&mut top, "schemes".to_owned(), json_array(items));
        let doc = json_object(top);
        assert(json_tree(doc) == document_of(self@));
        assert(is_plain(json_tree(doc))) by {
            assert(is_plain(Json::List(written)));
            assert(is_plain(Json::Text(schema_url())));
        }
        Box::new(json_to_string_pretty(&doc))
    }

    /// Decodes a Windows Terminal document.
    pub fn from_wt(s: &str) -> (r: Result<Box<ColorSchemes>, SchemeError>)
        ensures
            outcome(r) == decoded(s@),
            r matches Ok(schemes) ==> all_wf(schemes@),
    {
        match json_from_str(s) {
            Some(doc) => ColorSchemes::from_wt_value(&doc),
            None => Err(SchemeError::Invalid),
        }
    }

    /// Decodes a Windows Terminal document that was read as JSON.
    pub fn from_wt_value(doc: &serde_json::Value) -> (r: Result<Box<ColorSchemes>, SchemeError>)
        ensures
            outcome(r) == schemes_of_tree(json_tree(*doc)),
            r matches Ok(schemes) ==> all_wf(schemes@),
    {
        let list = match json_get(doc, "schemes") {
            Some(v) => v,
            None => {
                return Err(SchemeError::Invalid);
            },
        };
        let items = match json_as_array(list) {
            Some(items) => items,
            None => {
                return Err(SchemeError::Invalid);
            },
        };
        let ghost trees = json_trees(items@);
        assert(schemes_of_tree(json_tree(*doc)) == schemes_of_items(trees));
        let mut v: Vec<ColorScheme> = Vec::new();
        let mut i: usize = 0;
        while i < items.len()
            invariant
                i <= items.len(),
                trees == json_trees(items@),
                schemes_of_tree(json_tree(*doc)) == schemes_of_items(trees),
                v@.len() == i,
                forall|j: int| 0 <= j < i ==> is_complete(#[trigger] trees[j]),
                forall|j: int| 0 <= j < i ==> (#[trigger] v@[j])@ == scheme_of(trees[j]),
                forall|j: int| 0 <= j < i ==> (#[trigger] v@[j])@.wf(),
            decreases items.len() - i,
        {
            match scheme_from_entry(&items[i]) {
                Ok(scheme) => {
                    v.push(scheme);
                },
                Err(e) => {
                    assert(!is_complete(trees[i as int]));
                    return Err(e);
                },
            }
            i += 1;
        }
        let schemes = ColorSchemes::new(v);
        assert(schemes@ =~= trees.map_values(|entry: Json| scheme_of(entry)));
        Ok(Box::new(schemes))
    }
}

} // verus!
