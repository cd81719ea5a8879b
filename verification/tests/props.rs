use lexer::hash::StoreTermHash;
use lexer::token::{TokenLexer, TokenLexerBuilder, TokenLexerMode};

fn collect(mut run: TokenLexer) -> Vec<(String, u32)> {
    let mut out = Vec::new();
    while let Some(pair) = run.next() {
        out.push(pair);
    }
    out
}

#[test]
fn it_hashes_terms_stably() {
    assert_eq!(StoreTermHash::from("quick"), 4179131656);
    assert_eq!(StoreTermHash::from("renard"), 1635186311);
    assert_eq!(StoreTermHash::from("出"), 241978070);
    assert_eq!(StoreTermHash::from("quick"), StoreTermHash::from("quick"));
}

#[test]
fn it_normalizes_without_filtering() {
    let mut run = TokenLexerBuilder::from(TokenLexerMode::NormalizeOnly, "the the").unwrap();

    assert_eq!(run.locale(), None);
    let first = run.next().unwrap();
    assert_eq!(first.0, "the");
    assert_eq!(run.next(), None);
}

#[test]
fn it_lowercases_every_token() {
    let mut run = TokenLexerBuilder::from(TokenLexerMode::NormalizeOnly, "The QUICK Fox").unwrap();

    assert_eq!(run.next().map(|pair| pair.0), Some("the".to_string()));
    assert_eq!(run.next().map(|pair| pair.0), Some("quick".to_string()));
    assert_eq!(run.next().map(|pair| pair.0), Some("fox".to_string()));
    assert_eq!(run.next(), None);
}

#[test]
fn it_splits_at_word_boundaries() {
    let run =
        TokenLexerBuilder::from(TokenLexerMode::NormalizeOnly, "hello, world! don't stop").unwrap();
    let tokens: Vec<String> = collect(run).into_iter().map(|pair| pair.0).collect();

    assert_eq!(tokens, vec!["hello", "world", "don't", "stop"]);
}

#[test]
fn it_yields_identical_output_for_identical_input() {
    let text = "Over and over, the quick brown fox jumps over the lazy dog!";
    let first = collect(
        TokenLexerBuilder::from(TokenLexerMode::NormalizeAndCleanup(None), text).unwrap(),
    );
    let second = collect(
        TokenLexerBuilder::from(TokenLexerMode::NormalizeAndCleanup(None), text).unwrap(),
    );

    assert_eq!(first, second);
    assert!(!first.is_empty());
}

#[test]
fn it_never_repeats_a_term_hash() {
    let run = TokenLexerBuilder::from(
        TokenLexerMode::NormalizeOnly,
        "Dog dog DOG cat CAT bird dog cat bird",
    )
    .unwrap();
    let out = collect(run);

    let tokens: Vec<String> = out.iter().map(|pair| pair.0.clone()).collect();
    assert_eq!(tokens, vec!["dog", "cat", "bird"]);
    for i in 0..out.len() {
        for j in 0..out.len() {
            if i != j {
                assert_ne!(out[i].1, out[j].1);
            }
        }
    }
}

#[test]
fn it_classifies_empty_text_as_inconclusive() {
    assert_eq!(TokenLexerBuilder::detect_lang(""), None);
}

#[test]
fn it_truncates_on_character_boundaries() {
    // A multi-byte character run straddles the 200-character budget: the
    // classifier must truncate between characters and never panic.
    let mut straddling = "a".repeat(199);
    for _ in 0..10 {
        straddling.push('é');
    }
    let _ = TokenLexerBuilder::detect_lang(&straddling);

    // More than 200 bytes but fewer than 200 characters: nothing to truncate.
    let wide = "é".repeat(150);
    let _ = TokenLexerBuilder::detect_lang(&wide);

    // A long English text still classifies as English from its prefix.
    let long = "The quick brown fox jumps over the lazy dog! ".repeat(12);
    assert_eq!(
        TokenLexerBuilder::detect_lang(&long),
        Some(lexer::lang::Language::English)
    );
}
