//! Construction of the query suffix for the `repositories` and
//! `developers` endpoints. Each optional filter contributes one fragment,
//! in a fixed order; an absent filter keeps its key with an empty value
//! (the time range instead defaults to `daily`), while a filter that fails
//! validation is dropped altogether, key included.

use vstd::prelude::*;
use vstd::string::StringExecFns;
use crate::types::ProgrammingLanguage;
use crate::types::SpokenLanguage;
use crate::validate::check_language_validity;
use crate::validate::check_since_validity;
use crate::validate::check_spoken_lang_code_validity;
use crate::validate::is_since_token;
use crate::validate::language_in_list;
use crate::validate::spoken_in_list;

verus! {

/// The view of an optional string argument.
pub open spec fn view_opt(o: Option<&str>) -> Option<Seq<char>> {
    match o {
        Option::None => Option::None,
        Option::Some(s) => Option::Some(s@),
    }
}

/// The fragment the `language` filter contributes: key with empty value
/// when absent, key and value when valid, nothing when invalid.
pub open spec fn language_fragment(lang: Option<Seq<char>>, valid: bool) -> Seq<char> {
    match lang {
        Option::None => "language="@,
        Option::Some(l) => if valid {
            "language="@ + l
        } else {
            Seq::<char>::empty()
        },
    }
}

/// The fragment the time-range filter contributes: the literal default
/// `daily` when absent, the token when valid, nothing when invalid.
pub open spec fn since_fragment(since: Option<Seq<char>>, valid: bool) -> Seq<char> {
    match since {
        Option::None => "&since=daily"@,
        Option::Some(s) => if valid {
            "&since="@ + s
        } else {
            Seq::<char>::empty()
        },
    }
}

/// The fragment the spoken-language filter contributes: key with empty
/// value when absent, key and value when valid, nothing when invalid.
pub open spec fn spoken_fragment(spoken: Option<Seq<char>>, valid: bool) -> Seq<char> {
    match spoken {
        Option::None => "&spoken_lang_code="@,
        Option::Some(c) => if valid {
            "&spoken_lang_code="@ + c
        } else {
            Seq::<char>::empty()
        },
    }
}

/// The full query suffix for the `repositories` endpoint: path, then the
/// language, time-range and spoken-language fragments in that order.
pub open spec fn repos_query(
    lang: Option<Seq<char>>,
    lang_valid: bool,
    since: Option<Seq<char>>,
    since_valid: bool,
    spoken: Option<Seq<char>>,
    spoken_valid: bool,
) -> Seq<char> {
    "/repositories?"@ + language_fragment(lang, lang_valid) + since_fragment(since, since_valid)
        + spoken_fragment(spoken, spoken_valid)
}

/// The full query suffix for the `developers` endpoint: path, then the
/// language and time-range fragments in that order.
pub open spec fn developers_query(
    lang: Option<Seq<char>>,
    lang_valid: bool,
    since: Option<Seq<char>>,
    since_valid: bool,
) -> Seq<char> {
    "/developers?"@ + language_fragment(lang, lang_valid) + since_fragment(since, since_valid)
}

/// Build the query suffix for the `repositories` endpoint from the three
/// optional filters. The lookup lists must be supplied for the filters
/// that are present; a filter that is absent needs no list.
pub fn build_repos_query(
    language: Option<&str>,
    languages: Option<&Vec<ProgrammingLanguage>>,
    spoken_lang_code: Option<&str>,
    spoken_languages: Option<&Vec<SpokenLanguage>>,
    since: Option<&str>,
) -> (res: String)
    requires
        language is Some ==> languages is Some,
        spoken_lang_code is Some ==> spoken_languages is Some,
    ensures
        res@ == repos_query(
            view_opt(language),
            language matches Some(l) && languages matches Some(ls) && language_in_list(
                l@,
                ls@,
            ),
            view_opt(since),
            since matches Some(s) && is_since_token(s@),
            view_opt(spoken_lang_code),
            spoken_lang_code matches Some(c) && spoken_languages matches Some(sls)
                && spoken_in_list(c@, sls@),
        ),
{
    let mut q = String::from_str("/repositories?");
    let ghost q0 = q@;
    match language {
        Option::Some(lang) => {
            if check_language_validity(lang, languages.unwrap()) {
                q.append("language=");
                q.append(lang);
            }
        },
        Option::None => {
            q.append("language=");
        },
    }
    let ghost q1 = q@;
    assert(q1 =~= q0 + language_fragment(
        view_opt(language),
        language matches Some(l) && languages matches Some(ls) && language_in_list(l@, ls@),
    ));
    match since {
        Option::Some(s) => {
            if check_since_validity(s) {
                q.append("&since=");
                q.append(s);
            }
        },
        Option::None => {
            q.append("&since=daily");
        },
    }
    let ghost q2 = q@;
    assert(q2 =~= q1 + since_fragment(
        view_opt(since),
        since matches Some(s) && is_since_token(s@),
    ));
    match spoken_lang_code {
        Option::Some(code) => {
            if check_spoken_lang_code_validity(code, spoken_languages.unwrap()) {
                q.append("&spoken_lang_code=");
                q.append(code);
            }
        },
        Option::None => {
            q.append("&spoken_lang_code=");
        },
    }
    proof {
        assert(q@ =~= q2 + spoken_fragment(
            view_opt(spoken_lang_code),
            spoken_lang_code matches Some(c) && spoken_languages matches Some(sls)
                && spoken_in_list(c@, sls@),
        ));
    }
    q
}

/// Build the query suffix for the `developers` endpoint from the two
/// optional filters. The language lookup list must be supplied when the
/// language filter is present.
pub fn build_developers_query(
    language: Option<&str>,
    languages: Option<&Vec<ProgrammingLanguage>>,
    since: Option<&str>,
) -> (res: String)
    requires
        language is Some ==> languages is Some,
    ensures
        res@ == developers_query(
            view_opt(language),
            language matches Some(l) && languages matches Some(ls) && language_in_list(
                l@,
                ls@,
            ),
            view_opt(since),
            since matches Some(s) && is_since_token(s@),
        ),
{
    let mut q = String::from_str("/developers?");
    let ghost q0 = q@;
    match language {
        Option::Some(lang) => {
            if check_language_validity(lang, languages.unwrap()) {
                q.append("language=");
                q.append(lang);
            }
        },
        Option::None => {
            q.append("language=");
        },
    }
    let ghost q1 = q@;
    assert(q1 =~= q0 + language_fragment(
        view_opt(language),
        language matches Some(l) && languages matches Some(ls) && language_in_list(l@, ls@),
    ));
    match since {
        Option::Some(s) => {
            if check_since_validity(s) {
                q.append("&since=");
                q.append(s);
            }
        },
        Option::None => {
            q.append("&since=daily");
        },
    }
    proof {
        assert(q@ =~= q1 + since_fragment(
            view_opt(since),
            since matches Some(s) && is_since_token(s@),
        ));
    }
    q
}

} // verus!
