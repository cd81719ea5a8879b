use lexer::lang::Language;
use lexer::stopwords::LexerStopWord;

#[test]
fn it_detects_stopwords() {
    assert!(!LexerStopWord::is("the", None));
    assert!(LexerStopWord::is("the", Some(Language::English)));
    assert!(!LexerStopWord::is("fox", Some(Language::English)));
    assert!(!LexerStopWord::is("bonjour", Some(Language::French)));
    assert!(LexerStopWord::is("ici", Some(Language::French)));
    assert!(LexerStopWord::is("adéu", Some(Language::Catalan)));
}

#[test]
fn it_falls_back_to_english_stopwords() {
    assert!(!LexerStopWord::has_curated_stopwords(Language::German));
    assert!(LexerStopWord::has_curated_stopwords(Language::English));
    assert!(LexerStopWord::is("the", Some(Language::German)));
    assert!(!LexerStopWord::is("und", Some(Language::German)));
}
