//! INI files as `rust-ini` holds them, and what this library takes from that
//! crate without proof.
//!
//! An `Ini` and its `Properties` are opaque to the verifier. Their contents
//! are named by `ini_sections` and `ini_properties`, and each function below
//! says over those names what the crate's function does.

use vstd::prelude::*;

verus! {

/// `ini::Ini`, of which the verifier sees nothing.
#[verifier::external_type_specification]
#[verifier::external_body]
pub struct ExIni(ini::Ini);

/// `ini::Properties`, of which the verifier sees nothing.
#[verifier::external_type_specification]
#[verifier::external_body]
pub struct ExProperties(ini::Properties);

/// The properties of a section: for each key the first value given to it.
pub type Props = Map<Seq<char>, Seq<char>>;

/// A section: its name, which the section before the first header lacks,
/// and its properties.
pub type Section = (Option<Seq<char>>, Props);

/// The names of sections, in order.
pub open spec fn names_of(sections: Seq<Section>) -> Seq<Option<Seq<char>>> {
    sections.map_values(|s: Section| s.0)
}

/// Names as mathematical values.
pub open spec fn name_views(names: Seq<Option<&str>>) -> Seq<Option<Seq<char>>> {
    names.map_values(
        |n: Option<&str>|
            match n {
                Some(s) => Some(s@),
                None => None,
            },
    )
}

/// The properties of the first section that is called `name`.
pub open spec fn properties_of(sections: Seq<Section>, name: Seq<char>) -> Option<Props>
    decreases sections.len(),
{
    if sections.len() == 0 {
        None
    } else if sections.first().0 == Some(name) {
        Some(sections.first().1)
    } else {
        properties_of(sections.drop_first(), name)
    }
}

/// Every name among the sections leads to properties.
pub proof fn lemma_properties_of(sections: Seq<Section>, i: int)
    requires
        0 <= i < sections.len(),
        sections[i].0 is Some,
    ensures
        properties_of(sections, sections[i].0.unwrap()) is Some,
    decreases sections.len(),
{
    if sections.first().0 != sections[i].0 {
        assert(sections.drop_first()[i - 1] == sections[i]);
        lemma_properties_of(sections.drop_first(), i - 1);
    }
}

/// What an `Ini` holds: one section for each name, in the order in which
/// the names first came, each with the properties of the first section of
/// that name.
pub uninterp spec fn ini_sections(conf: ini::Ini) -> Seq<Section>;

/// What `Properties` hold: for each key the first value given to it.
pub uninterp spec fn ini_properties(p: ini::Properties) -> Props;

/// The sections that `Ini::load_from_str` reads from a text; nothing where
/// it reports an error.
pub uninterp spec fn ini_read(text: Seq<char>) -> Option<Seq<Section>>;

/// `Ini::load_from_str`. The result depends on the text alone.
#[verifier::external_body]
pub(crate) fn ini_load(text: &str) -> (r: Option<ini::Ini>)
    ensures
        match r {
            Some(conf) => ini_read(text@) == Some(ini_sections(conf)),
            None => ini_read(text@) is None,
        },
{
    ini::Ini::load_from_str(text).ok()
}

/// `Ini::sections`: the names of the sections, each once, in the order in
/// which they first came.
#[verifier::external_body]
pub(crate) fn ini_section_names<'a>(conf: &'a ini::Ini) -> (r: Vec<Option<&'a str>>)
    ensures
        name_views(r@) == names_of(ini_sections(*conf)),
{
    conf.sections().collect()
}

/// `Ini::section` with a name: the first section of that name.
#[verifier::external_body]
pub(crate) fn ini_section<'a>(conf: &'a ini::Ini, name: &str) -> (r: Option<&'a ini::Properties>)
    ensures
        match r {
            Some(p) => properties_of(ini_sections(*conf), name@) == Some(ini_properties(*p)),
            None => properties_of(ini_sections(*conf), name@) is None,
        },
{
    conf.section(Some(name))
}

/// `Properties::get`: the first value given to the key.
#[verifier::external_body]
pub(crate) fn ini_get<'a>(p: &'a ini::Properties, key: &str) -> (r: Option<&'a str>)
    ensures
        match r {
            Some(value) => ini_properties(*p).dom().contains(key@) && ini_properties(*p)[key@]
                == value@,
            None => !ini_properties(*p).dom().contains(key@),
        },
{
    p.get(key)
}

} // verus!
