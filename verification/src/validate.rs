//! Validation of the three optional filters: programming language and
//! spoken language against a lookup list fetched from the service, and
//! the time-range token against a fixed enumeration.

use vstd::prelude::*;
use crate::text::ascii_caseless_eq;
use crate::text::str_eq;
use crate::text::str_eq_ignore_case;
use crate::types::ProgrammingLanguage;
use crate::types::SpokenLanguage;

verus! {

/// A programming-language name is valid when some entry of the lookup
/// list has a name that equals it up to ASCII case.
pub open spec fn language_in_list(name: Seq<char>, langs: Seq<ProgrammingLanguage>) -> bool {
    exists|i: int| 0 <= i < langs.len() && ascii_caseless_eq(langs[i].name@, name)
}

/// A spoken-language code is valid when some entry of the lookup list
/// has a name that equals it up to ASCII case.
pub open spec fn spoken_in_list(code: Seq<char>, langs: Seq<SpokenLanguage>) -> bool {
    exists|i: int| 0 <= i < langs.len() && ascii_caseless_eq(langs[i].name@, code)
}

/// The three time-range tokens the service accepts, matched exactly.
pub open spec fn is_since_token(s: Seq<char>) -> bool {
    s == "daily"@ || s == "weekly"@ || s == "monthly"@
}

/// Check a candidate programming-language name against the lookup list:
/// a case-insensitive exact match against each entry's display name.
pub fn check_language_validity(language: &str, languages: &Vec<ProgrammingLanguage>) -> (r: bool)
    ensures
        r == language_in_list(language@, languages@),
{
    let mut i: usize = 0;
    while i < languages.len()
        invariant
            i <= languages@.len(),
            forall|j: int| 0 <= j < i ==> !ascii_caseless_eq(languages@[j].name@, language@),
        decreases languages@.len() - i,
    {
        if str_eq_ignore_case(languages[i].name.as_str(), language) {
            return true;
        }
        i = i + 1;
    }
    false
}

/// Check a candidate spoken-language code against the lookup list:
/// a case-insensitive exact match against each entry's display name.
pub fn check_spoken_lang_code_validity(lang_code: &str, spoken_languages: &Vec<SpokenLanguage>) -> (r: bool)
    ensures
        r == spoken_in_list(lang_code@, spoken_languages@),
{
    let mut i: usize = 0;
    while i < spoken_languages.len()
        invariant
            i <= spoken_languages@.len(),
            forall|j: int| 0 <= j < i ==> !ascii_caseless_eq(spoken_languages@[j].name@, lang_code@),
        decreases spoken_languages@.len() - i,
    {
        if str_eq_ignore_case(spoken_languages[i].name.as_str(), lang_code) {
            return true;
        }
        i = i + 1;
    }
    false
}

/// Check a time-range token: exactly `daily`, `weekly` or `monthly`,
/// case-sensitively, with no lookup involved.
pub fn check_since_validity(since: &str) -> (r: bool)
    ensures
        r == is_since_token(since@),
{
    str_eq(since, "daily") || str_eq(since, "weekly") || str_eq(since, "monthly")
}

} // verus!
