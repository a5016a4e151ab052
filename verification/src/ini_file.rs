//! The boundary to the `ini` crate, which parses the configuration file.
//!
//! Nothing in this module is proved. The parser's result is given a name,
//! and the two look-ups are described over what a document holds; the rest
//! of the crate is verified against these descriptions.

use crate::error::SyntaxError;
use vstd::prelude::*;

verus! {

/// `ini::Ini`, a parsed document. The verifier does not look inside it.
#[verifier::external_type_specification]
#[verifier::external_body]
pub struct ExIni(ini::Ini);

/// `ini::Properties`, the entries of one section. The verifier does not
/// look inside it.
#[verifier::external_type_specification]
#[verifier::external_body]
pub struct ExProperties(ini::Properties);

/// What `Ini::load_from_str` makes of a text: the named sections of the
/// document it returns, or the line, the column and the message of the
/// syntax error it reports.
pub uninterp spec fn ini_parse(text: Seq<char>) -> Result<Map<Seq<char>, Map<Seq<char>, Seq<char>>>, (nat, nat, Seq<char>)>;

/// The named sections of a document, each with its entries. Where a name
/// heads several sections, or a key occurs several times in one, the first
/// counts, as in `Ini::section` and `Properties::get`. Entries in front of
/// the first section header belong to no named section.
pub uninterp spec fn ini_sections(document: ini::Ini) -> Map<Seq<char>, Map<Seq<char>, Seq<char>>>;

/// The entries of one section: each key with its first value.
pub uninterp spec fn section_entries(section: ini::Properties) -> Map<Seq<char>, Seq<char>>;

/// Calls `Ini::load_from_str`, which parses with the crate's default
/// options. The result depends on the text alone: it is the document whose
/// sections `ini_parse` names, or the position and message of the error that
/// `ini_parse` names.
#[verifier::external_body]
pub(crate) fn parse(text: &str) -> (parsed: Result<ini::Ini, SyntaxError>)
    ensures
        parsed matches Ok(document) ==> ini_parse(text@) matches Ok(sections) && sections
            == ini_sections(document),
        parsed matches Err(error) ==> ini_parse(text@) matches Err(reported) && reported
            == error@,
{
    match ini::Ini::load_from_str(text) {
        Ok(document) => Ok(document),
        Err(error) => Err(
            SyntaxError { line: error.line, col: error.col, message: error.msg.into_owned() },
        ),
    }
}

/// Calls `Ini::section` with a section's name. It returns the first section
/// of that name, if the document has one.
#[verifier::external_body]
pub(crate) fn section<'a>(document: &'a ini::Ini, name: &str) -> (found: Option<&'a ini::Properties>)
    ensures
        found is Some <==> ini_sections(*document).contains_key(name@),
        found matches Some(entries) ==> section_entries(*entries) == ini_sections(*document)[name@],
{
    document.section(Some(name))
}

/// Calls `Properties::get` with a key. It returns the first value stored
/// under that key, if the section has one.
#[verifier::external_body]
pub(crate) fn value<'a>(section: &'a ini::Properties, key: &str) -> (found: Option<&'a str>)
    ensures
        found is Some <==> section_entries(*section).contains_key(key@),
        found matches Some(text) ==> text@ == section_entries(*section)[key@],
{
    section.get(key)
}

} // verus!
