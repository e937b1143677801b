use gtrending::build_developers_query;
use gtrending::build_repos_query;
use gtrending::check_language_validity;
use gtrending::check_since_validity;
use gtrending::check_spoken_lang_code_validity;
use gtrending::Person;
use gtrending::ProgrammingLanguage;
use gtrending::Repository;
use gtrending::SpokenLanguage;
use gtrending::text::str_eq;
use gtrending::text::str_eq_ignore_case;

fn language_list() -> Vec<ProgrammingLanguage> {
    vec![
        ProgrammingLanguage { id: String::from("python"), name: String::from("Python") },
        ProgrammingLanguage { id: String::from("rust"), name: String::from("Rust") },
        ProgrammingLanguage { id: String::from("c++"), name: String::from("C++") },
    ]
}

fn spoken_list() -> Vec<SpokenLanguage> {
    vec![
        SpokenLanguage { url_param: String::from("en"), name: String::from("English") },
        SpokenLanguage { url_param: String::from("es"), name: String::from("Spanish") },
    ]
}

fn repository(author: &str, name: &str, url: &str) -> Repository {
    Repository {
        author: String::from(author),
        name: String::from(name),
        url: String::from(url),
        description: String::from("a description"),
        language: String::from("Rust"),
        stars: String::from("100"),
        forks: String::from("7"),
        avatar: String::from("https://example.com/a.png"),
        current_period_stars: String::from("12"),
        built_by: Vec::<Person>::new(),
    }
}

#[test]
fn test_since_valid_tokens() {
    assert!(check_since_validity("daily"));
    assert!(check_since_validity("weekly"));
    assert!(check_since_validity("monthly"));
}

#[test]
fn test_since_invalid_tokens() {
    assert!(!check_since_validity("YEARLY"));
    assert!(!check_since_validity("yearly"));
    assert!(!check_since_validity("Daily"));
    assert!(!check_since_validity(""));
    assert!(!check_since_validity("daily "));
}

#[test]
fn test_language_validity_case_insensitive() {
    let langs = language_list();
    assert!(check_language_validity("python", &langs));
    assert!(check_language_validity("Python", &langs));
    assert!(check_language_validity("PYTHON", &langs));
    assert!(check_language_validity("rUsT", &langs));
    assert!(check_language_validity("c++", &langs));
}

#[test]
fn test_language_validity_rejects_missing() {
    let langs = language_list();
    assert!(!check_language_validity("haskell", &langs));
    assert!(!check_language_validity("pytho", &langs));
    assert!(!check_language_validity("pythonn", &langs));
    assert!(!check_language_validity("", &langs));
    assert!(!check_language_validity("python", &Vec::new()));
}

#[test]
fn test_spoken_language_validity() {
    let spoken = spoken_list();
    assert!(check_spoken_lang_code_validity("english", &spoken));
    assert!(check_spoken_lang_code_validity("Spanish", &spoken));
    assert!(!check_spoken_lang_code_validity("en", &spoken));
    assert!(!check_spoken_lang_code_validity("german", &spoken));
    assert!(!check_spoken_lang_code_validity("english", &Vec::new()));
}

#[test]
fn test_repos_query_all_absent() {
    let q = build_repos_query(None, None, None, None, None);
    assert_eq!(q, "/repositories?language=&since=daily&spoken_lang_code=");
}

#[test]
fn test_repos_query_valid_filters() {
    let langs = language_list();
    let spoken = spoken_list();
    let q = build_repos_query(Some("python"), Some(&langs), Some("english"), Some(&spoken), Some("weekly"));
    assert_eq!(q, "/repositories?language=python&since=weekly&spoken_lang_code=english");
    let q = build_repos_query(Some("Rust"), Some(&langs), None, None, Some("monthly"));
    assert_eq!(q, "/repositories?language=Rust&since=monthly&spoken_lang_code=");
    let q = build_repos_query(None, None, None, None, Some("daily"));
    assert_eq!(q, "/repositories?language=&since=daily&spoken_lang_code=");
}

#[test]
fn test_repos_query_invalid_filters_dropped() {
    let langs = language_list();
    let spoken = spoken_list();
    let q = build_repos_query(Some("klingon"), Some(&langs), None, None, None);
    assert_eq!(q, "/repositories?&since=daily&spoken_lang_code=");
    let q = build_repos_query(None, None, None, None, Some("yearly"));
    assert_eq!(q, "/repositories?language=&spoken_lang_code=");
    let q = build_repos_query(None, None, Some("xx"), Some(&spoken), None);
    assert_eq!(q, "/repositories?language=&since=daily");
    let q = build_repos_query(
        Some("klingon"),
        Some(&langs),
        Some("xx"),
        Some(&spoken),
        Some("YEARLY"),
    );
    assert_eq!(q, "/repositories?");
}

#[test]
fn test_repos_query_mixed_filters() {
    let langs = language_list();
    let spoken = spoken_list();
    let q = build_repos_query(Some("python"), Some(&langs), Some("spanish"), Some(&spoken), None);
    assert_eq!(q, "/repositories?language=python&since=daily&spoken_lang_code=spanish");
    let q = build_repos_query(Some("klingon"), Some(&langs), Some("english"), Some(&spoken), Some("weekly"));
    assert_eq!(q, "/repositories?&since=weekly&spoken_lang_code=english");
}

#[test]
fn test_developers_query() {
    let langs = language_list();
    let q = build_developers_query(None, None, None);
    assert_eq!(q, "/developers?language=&since=daily");
    let q = build_developers_query(Some("rust"), Some(&langs), Some("monthly"));
    assert_eq!(q, "/developers?language=rust&since=monthly");
    let q = build_developers_query(Some("klingon"), Some(&langs), Some("YEARLY"));
    assert_eq!(q, "/developers?");
    let q = build_developers_query(None, None, Some("weekly"));
    assert_eq!(q, "/developers?language=&since=weekly");
}

#[test]
fn test_canonical_url() {
    let good = repository("octocat", "hello-world", "https://github.com/octocat/hello-world");
    assert!(good.has_canonical_url());
    let bad = repository("octocat", "hello-world", "https://github.com/octocat/other");
    assert!(!bad.has_canonical_url());
    let empty = repository("", "", "https://github.com//");
    assert!(empty.has_canonical_url());
}

#[test]
fn test_str_eq() {
    assert!(str_eq("", ""));
    assert!(str_eq("daily", "daily"));
    assert!(!str_eq("daily", "Daily"));
    assert!(!str_eq("daily", "dail"));
    assert!(!str_eq("dail", "daily"));
}

#[test]
fn test_str_eq_ignore_case() {
    assert!(str_eq_ignore_case("", ""));
    assert!(str_eq_ignore_case("AbC", "aBc"));
    assert!(str_eq_ignore_case("Python", "pYTHON"));
    assert!(!str_eq_ignore_case("abc", "abd"));
    assert!(!str_eq_ignore_case("ab", "abc"));
    assert!(!str_eq_ignore_case("a_c", "a-c"));
    assert!(str_eq_ignore_case("C++", "c++"));
}
