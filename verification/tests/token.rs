use lexer::lang::Language;
use lexer::token::{TokenLexerBuilder, TokenLexerMode};

#[test]
fn it_cleans_token_english() {
    let mut token_cleaner = TokenLexerBuilder::from(
        TokenLexerMode::NormalizeAndCleanup(None),
        "The quick brown fox jumps over the lazy dog!",
    )
    .unwrap();

    assert_eq!(token_cleaner.locale(), Some(Language::English));
    assert_eq!(
        token_cleaner.next(),
        Some(("quick".to_string(), 4179131656))
    );
    assert_eq!(
        token_cleaner.next(),
        Some(("brown".to_string(), 1268820067))
    );
    assert_eq!(token_cleaner.next(), Some(("fox".to_string(), 667256324)));
    assert_eq!(token_cleaner.next(), Some(("jumps".to_string(), 633865164)));
    assert_eq!(token_cleaner.next(), Some(("lazy".to_string(), 4130433347)));
    assert_eq!(token_cleaner.next(), Some(("dog".to_string(), 2044924251)));
    assert_eq!(token_cleaner.next(), None);
}

#[test]
fn it_cleans_token_french() {
    let mut token_cleaner = TokenLexerBuilder::from(
        TokenLexerMode::NormalizeAndCleanup(None),
        "Le vif renard brun saute par dessus le chien paresseux.",
    )
    .unwrap();

    assert_eq!(token_cleaner.locale(), Some(Language::French));
    assert_eq!(
        token_cleaner.next(),
        Some(("renard".to_string(), 1635186311))
    );
    assert_eq!(token_cleaner.next(), Some(("brun".to_string(), 2763604928)));
    assert_eq!(
        token_cleaner.next(),
        Some(("saute".to_string(), 1918158211))
    );
    assert_eq!(
        token_cleaner.next(),
        Some(("chien".to_string(), 2177818351))
    );
    assert_eq!(
        token_cleaner.next(),
        Some(("paresseux".to_string(), 1678693110))
    );
    assert_eq!(token_cleaner.next(), None);
}

#[test]
fn it_cleans_token_chinese_jieba() {
    let mut token_cleaner = TokenLexerBuilder::from(
        TokenLexerMode::NormalizeAndCleanup(None),
        "我们中出了一个叛徒",
    )
    .unwrap();

    assert_eq!(token_cleaner.locale(), Some(Language::Chinese));
    assert_eq!(token_cleaner.next(), Some(("出".to_string(), 241978070)));
    assert_eq!(token_cleaner.next(), Some(("一个".to_string(), 2596274530)));
    assert_eq!(token_cleaner.next(), Some(("叛徒".to_string(), 3244183759)));
    assert_eq!(token_cleaner.next(), None);
}

#[test]
fn it_cleans_token_chinese_naive() {
    let mut token_cleaner = TokenLexerBuilder::from(
        TokenLexerMode::NormalizeAndCleanup(None),
        "快狐跨懒狗快狐跨懒狗",
    )
    .unwrap();

    assert_eq!(token_cleaner.locale(), Some(Language::Chinese));
    assert_eq!(token_cleaner.next(), Some(("快".to_string(), 126546256)));
    assert_eq!(token_cleaner.next(), Some(("狐".to_string(), 2879689662)));
    assert_eq!(token_cleaner.next(), Some(("跨".to_string(), 2913342670)));
    assert_eq!(token_cleaner.next(), Some(("懒".to_string(), 3199935961)));
    assert_eq!(token_cleaner.next(), Some(("狗".to_string(), 3360772096)));
    assert_eq!(token_cleaner.next(), None);
}

#[test]
fn it_cleans_token_emojis() {
    let mut token_cleaner =
        TokenLexerBuilder::from(TokenLexerMode::NormalizeAndCleanup(None), "🚀 🙋‍♂️🙋‍♂️🙋‍♂️")
            .unwrap();

    assert_eq!(token_cleaner.locale(), None);
    assert_eq!(token_cleaner.next(), None);
}

#[test]
fn it_cleans_token_lang_hinted() {
    let mut token_cleaner_right = TokenLexerBuilder::from(
        TokenLexerMode::NormalizeAndCleanup(Some(Language::English)),
        "This will be cleaned properly, as English was hinted rightfully so.",
    )
    .unwrap();
    let mut token_cleaner_wrong = TokenLexerBuilder::from(
        TokenLexerMode::NormalizeAndCleanup(Some(Language::French)),
        "This will not be cleaned properly, as French was hinted but this is English.",
    )
    .unwrap();

    assert_eq!(token_cleaner_right.locale(), Some(Language::English));
    assert_eq!(token_cleaner_wrong.locale(), Some(Language::French));

    assert_eq!(
        token_cleaner_right.next(),
        Some(("cleaned".to_string(), 3550382624))
    );
    assert_eq!(
        token_cleaner_wrong.next(),
        Some(("this".to_string(), 493303710))
    );
}

#[test]
fn it_detects_lang_english_regular() {
    assert_eq!(
        TokenLexerBuilder::detect_lang("The quick brown fox jumps over the lazy dog!"),
        Some(Language::English)
    );
}

#[test]
fn it_detects_lang_english_long() {
    assert_eq!(
        TokenLexerBuilder::detect_lang(
            r#"Running an electrical current through water splits it into oxygen and hydrogen,
            the latter of which can be used as a reliable, zero-emission fuel source. In the past,
            the process of purifying water beforehand was too energy intensive for this process to
            be useful — but now scientists have figured out how to skip the process altogether and
            convert seawater into usable hydrogen"#
        ),
        Some(Language::English)
    );
}

#[test]
fn it_detects_lang_english_tiny() {
    assert_eq!(
        TokenLexerBuilder::detect_lang("The quick"),
        Some(Language::English)
    );
}
