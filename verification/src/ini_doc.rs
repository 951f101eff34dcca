//! INI documents, consumed as ordered sections of key/value pairs.
//!
//! The INI grammar itself is an external concern: a trusted wrapper hands the
//! parser's outcome over as plain values, and everything downstream of it is
//! verified against the section/key/value model.

use vstd::prelude::*;

use crate::error::Error;
use crate::strutil::str_eq;

verus! {

/// One section of an INI document: its name (absent for the leading unnamed
/// section) and its key/value pairs in document order.
#[derive(Debug, PartialEq, Eq)]
pub struct IniSection {
    pub name: Option<String>,
    pub pairs: Vec<(String, String)>,
}

/// The mathematical model of one section: its optional name and its pairs.
pub type SectionModel = (Option<Seq<char>>, Seq<(Seq<char>, Seq<char>)>);

impl View for IniSection {
    type V = SectionModel;

    open spec fn view(&self) -> SectionModel {
        (self.name.deep_view(), self.pairs.deep_view())
    }
}

impl DeepView for IniSection {
    type V = SectionModel;

    open spec fn deep_view(&self) -> SectionModel {
        self.view()
    }
}

/// The sections that the INI parser yields for a given text, in document
/// order, or `None` where the text is not valid INI.
pub uninterp spec fn ini_doc_of(text: Seq<char>) -> Option<Seq<SectionModel>>;

/// Relies on `ini::Ini::load_from_str`: parses INI text into named sections
/// of key/value pairs, kept in document order; fails exactly on text that is
/// not valid INI.
#[verifier::external_body]
pub(crate) fn parse_ini_text(text: &str) -> (r: Option<Vec<IniSection>>)
    ensures
        r is Some <==> ini_doc_of(text@) is Some,
        r matches Some(v) ==> v.deep_view() == ini_doc_of(text@)->Some_0,
{
    let ini = match ini::Ini::load_from_str(text) {
        Ok(i) => i,
        Err(_) => return None,
    };
    Some(ini.iter().map(|(name, props)| IniSection {
        name: name.map(|n| n.to_owned()),
        pairs: props.iter().map(|(k, v)| (k.to_owned(), v.to_owned())).collect(),
    }).collect())
}

/// Parses INI text into its sections; fails exactly on invalid INI text.
pub fn parse_sections(text: &str) -> (r: Result<Vec<IniSection>, Error>)
    ensures
        ini_doc_of(text@) is None ==> (r matches Err(e) && e matches Error::Ini(_)),
        ini_doc_of(text@) matches Some(doc) ==> (r matches Ok(v) && v.deep_view() == doc),
{
    match parse_ini_text(text) {
        None => Err(Error::Ini("the text is not valid INI".to_owned())),
        Some(sections) => Ok(sections),
    }
}

/// The value of the first pair carrying the given key.
pub open spec fn spec_pairs_get(
    pairs: Seq<(Seq<char>, Seq<char>)>,
    key: Seq<char>,
) -> Option<Seq<char>>
    decreases pairs.len(),
{
    if pairs.len() == 0 {
        None
    } else if pairs[0].0 == key {
        Some(pairs[0].1)
    } else {
        spec_pairs_get(pairs.drop_first(), key)
    }
}

/// Looks a key up in a section's pairs; the first matching pair wins.
pub fn pairs_get<'a>(pairs: &'a Vec<(String, String)>, key: &str) -> (r: Option<&'a String>)
    ensures
        r.deep_view() == spec_pairs_get(pairs.deep_view(), key@),
{
    let ghost all = pairs.deep_view();
    let n = pairs.len();
    let mut i: usize = 0;
    proof {
        assert(all.skip(0) =~= all);
    }
    while i < n
        invariant
            i <= n == pairs.len(),
            all == pairs.deep_view(),
            spec_pairs_get(all, key@) == spec_pairs_get(all.skip(i as int), key@),
        decreases n - i,
    {
        proof {
            assert(all.skip(i as int)[0] == all[i as int]);
        }
        if str_eq(pairs[i].0.as_str(), key) {
            return Some(&pairs[i].1);
        }
        proof {
            assert(all.skip(i as int).drop_first() =~= all.skip(i as int + 1));
        }
        i += 1;
    }
    proof {
        assert(all.skip(n as int) =~= Seq::<(Seq<char>, Seq<char>)>::empty());
    }
    None
}

/// The first section carrying the given name.
pub open spec fn spec_find_section(
    doc: Seq<SectionModel>,
    name: Seq<char>,
) -> Option<SectionModel>
    decreases doc.len(),
{
    if doc.len() == 0 {
        None
    } else if doc[0].0 == Some(name) {
        Some(doc[0])
    } else {
        spec_find_section(doc.drop_first(), name)
    }
}

/// Finds the first section carrying the given name.
pub fn find_section<'a>(sections: &'a Vec<IniSection>, name: &str) -> (r: Option<&'a IniSection>)
    ensures
        r matches Some(sec) ==> spec_find_section(sections.deep_view(), name@) == Some(sec@),
        r is None ==> spec_find_section(sections.deep_view(), name@) is None,
{
    let ghost all = sections.deep_view();
    let n = sections.len();
    let mut i: usize = 0;
    proof {
        assert(all.skip(0) =~= all);
    }
    while i < n
        invariant
            i <= n == sections.len(),
            all == sections.deep_view(),
            spec_find_section(all, name@) == spec_find_section(all.skip(i as int), name@),
        decreases n - i,
    {
        proof {
            assert(all.skip(i as int)[0] == all[i as int]);
            assert(all[i as int] == sections[i as int]@);
        }
        let named = match &sections[i].name {
            Some(sec_name) => str_eq(sec_name.as_str(), name),
            None => false,
        };
        if named {
            return Some(&sections[i]);
        }
        proof {
            assert(all.skip(i as int).drop_first() =~= all.skip(i as int + 1));
        }
        i += 1;
    }
    proof {
        assert(all.skip(n as int) =~= Seq::<SectionModel>::empty());
    }
    None
}

} // verus!
