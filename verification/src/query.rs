use vstd::prelude::*;
use vstd::string::StringExecFns;
use crate::lang::{spec_lang_of_code, Language};

verus! {

/// A parsed external language selector: filtering is either enabled with a
/// concrete language, or was deliberately disabled with the reserved
/// sentinel `"none"`.
#[derive(Debug, PartialEq, Eq, Structural, Clone, Copy)]
pub enum QueryGenericLang {
    Enabled(Language),
    Disabled,
}

pub type QuerySearchID<'a> = &'a str;

pub type QuerySearchLimit = u16;

pub type QuerySearchOffset = u32;

pub type QueryMetaData = (
    Option<QuerySearchLimit>,
    Option<QuerySearchOffset>,
    Option<QueryGenericLang>,
);

pub type ListMetaData = (Option<QuerySearchLimit>, Option<QuerySearchOffset>);

/// What a selector string resolves to: the disable sentinel turns filtering
/// off; a supported ISO 639-3 code picks that language; any other value is a
/// reportable parse error, here an absent result — never silently ignored.
pub open spec fn spec_query_lang_of(value: Seq<char>) -> Option<QueryGenericLang> {
    if value == "none"@ {
        Some(QueryGenericLang::Disabled)
    } else {
        match spec_lang_of_code(value) {
            Some(l) => Some(QueryGenericLang::Enabled(l)),
            None => None,
        }
    }
}

impl QueryGenericLang {
    /// Parses an external language selector string.
    pub fn from_value(value: &str) -> (r: Option<QueryGenericLang>)
        ensures
            r == spec_query_lang_of(value@),
    {
        let v = value.to_owned();
        if v == String::from_str("none") {
            Some(QueryGenericLang::Disabled)
        } else {
            match Language::from_code(value) {
                Some(l) => Some(QueryGenericLang::Enabled(l)),
                None => None,
            }
        }
    }
}

} // verus!
