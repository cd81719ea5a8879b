use lexer::lang::Language;
use lexer::query::QueryGenericLang;

#[test]
fn it_parses_generic_lang_from_value() {
    assert_eq!(
        QueryGenericLang::from_value("none"),
        Some(QueryGenericLang::Disabled)
    );
    assert_eq!(
        QueryGenericLang::from_value("fra"),
        Some(QueryGenericLang::Enabled(Language::French))
    );
    assert_eq!(QueryGenericLang::from_value("xxx"), None);
}

#[test]
fn it_parses_codes_ignoring_ascii_case() {
    assert_eq!(
        QueryGenericLang::from_value("FRA"),
        Some(QueryGenericLang::Enabled(Language::French))
    );
    assert_eq!(
        QueryGenericLang::from_value("Zho"),
        Some(QueryGenericLang::Enabled(Language::Chinese))
    );
    assert_eq!(QueryGenericLang::from_value("english"), None);
    assert_eq!(QueryGenericLang::from_value(""), None);
}
