use vstd::prelude::*;
use vstd::string::StrSliceExecFns;
use std::collections::HashSet;
use unicode_segmentation::UnicodeSegmentation;
use crate::hash::{spec_term_hash, StoreTermHash, StoreTermHashed};
use crate::lang::{spec_lang_of_code, Language};
use crate::query::QueryGenericLang;
use crate::stopwords::{contains_word, spec_is_stopword, spec_stopwords, LexerStopWord};

verus! {

broadcast use vstd::std_specs::hash::group_hash_axioms;

/// Number of characters kept for language classification. A prefix of this
/// many characters carries enough signal for a reliable guess on almost all
/// inputs, and bounds the classifier's worst-case cost.
pub const TEXT_LANG_TRUNCATE_OVER_CHARS: usize = 200;

/// The classifier's input: the text itself, or its prefix of
/// `TEXT_LANG_TRUNCATE_OVER_CHARS` characters when the text is longer.
/// Truncation counts characters, never bytes, so it cannot split a character.
pub open spec fn spec_truncated(text: Seq<char>) -> Seq<char> {
    if text.len() > TEXT_LANG_TRUNCATE_OVER_CHARS {
        text.subrange(0, TEXT_LANG_TRUNCATE_OVER_CHARS as int)
    } else {
        text
    }
}

/// Boundary safety of classification truncation: what the classifier sees is
/// a prefix of whole characters, at most 200 of them, so a multi-byte
/// character straddling the budget is kept or dropped whole, never split.
pub proof fn lemma_truncation_safe(text: Seq<char>)
    ensures
        spec_truncated(text).len() <= TEXT_LANG_TRUNCATE_OVER_CHARS,
        spec_truncated(text).len() == vstd::math::min(
            text.len() as int,
            TEXT_LANG_TRUNCATE_OVER_CHARS as int,
        ),
        forall|i: int|
            0 <= i < spec_truncated(text).len() ==> spec_truncated(text)[i] == text[i],
{
}

/// Relies on lingua's `LanguageDetector` built from all compiled languages
/// (this build compiles the twenty-one languages that also have curated
/// stopword lists): `detect_language_of` returns the statistically most
/// likely language of the text, or nothing when no candidate clears its
/// internal confidence floor, and `iso_code_639_3` names the detected
/// language by a standardized ISO 639-3 code, each of which resolves in this
/// library's language table. The verdict is not promised to be a function of
/// the text: the detector's score accumulation walks hash tables whose order
/// is freshly seeded per process, so near-tied boundary inputs may classify
/// differently between calls. Empty text always classifies as nothing.
#[verifier::external_body]
fn detect_iso_code(text: &str) -> (r: Option<String>)
    ensures
        r matches Some(code) ==> spec_lang_of_code(code@) is Some,
        text@.len() == 0 ==> r is None,
{
    lingua::LanguageDetectorBuilder::from_all_languages()
        .build()
        .detect_language_of(text)
        .map(|lang| lang.iso_code_639_3().to_string())
}

/// The words of a text under default Unicode word-boundary segmentation.
pub uninterp spec fn spec_unicode_words(text: Seq<char>) -> Seq<Seq<char>>;

/// Relies on `unicode_segmentation::UnicodeSegmentation::unicode_words`: it
/// splits a text at Unicode word boundaries, keeping only the word-like
/// spans, and its result is a function of the text alone.
#[verifier::external_body]
fn unicode_words_vec(text: &str) -> (r: Vec<String>)
    ensures
        r.deep_view() == spec_unicode_words(text@),
{
    text.unicode_words().map(|w| w.to_string()).collect()
}

/// The words of a text under the dictionary-based Chinese segmenter.
pub uninterp spec fn spec_jieba_words(text: Seq<char>) -> Seq<Seq<char>>;

/// Relies on `jieba_rs::Jieba::cut` without HMM over the bundled default
/// dictionary: it segments a text into dictionary words, and its result is a
/// function of the text alone.
#[verifier::external_body]
fn jieba_words_vec(text: &str) -> (r: Vec<String>)
    ensures
        r.deep_view() == spec_jieba_words(text@),
{
    let jieba = jieba_rs::Jieba::new();
    let words = jieba.cut(text, false);
    words.into_iter().map(|w| w.to_string()).collect()
}

/// Unicode lowercase folding of one token.
pub uninterp spec fn spec_lowercase(word: Seq<char>) -> Seq<char>;

/// Relies on `str::to_lowercase`: the Unicode lowercase mapping of a string
/// depends on its characters alone.
#[verifier::external_body]
fn lowercase(word: &str) -> (r: String)
    ensures
        r@ == spec_lowercase(word@),
{
    word.to_lowercase()
}

/// Governs one pipeline run: normalize and clean up, with an optional
/// language hint forcing the locale instead of auto-detection, or normalize
/// only, with no detection and no stopword filtering.
#[derive(Debug, PartialEq, Eq, Structural, Clone, Copy)]
pub enum TokenLexerMode {
    NormalizeAndCleanup(Option<Language>),
    NormalizeOnly,
}

/// The mode a parsed external selector asks for: an explicit language forces
/// that locale, the disable sentinel turns cleanup off, and no selector at
/// all means detect-and-clean.
pub open spec fn spec_mode_of_query_lang(lang: Option<QueryGenericLang>) -> TokenLexerMode {
    match lang {
        Some(QueryGenericLang::Enabled(l)) => TokenLexerMode::NormalizeAndCleanup(Some(l)),
        Some(QueryGenericLang::Disabled) => TokenLexerMode::NormalizeOnly,
        None => TokenLexerMode::NormalizeAndCleanup(None),
    }
}

impl TokenLexerMode {
    /// Turns a parsed external language selector into a lexer mode.
    pub fn from_query_lang(lang: Option<QueryGenericLang>) -> (r: TokenLexerMode)
        ensures
            r == spec_mode_of_query_lang(lang),
    {
        match lang {
            Some(QueryGenericLang::Enabled(l)) => TokenLexerMode::NormalizeAndCleanup(Some(l)),
            Some(QueryGenericLang::Disabled) => TokenLexerMode::NormalizeOnly,
            None => TokenLexerMode::NormalizeAndCleanup(None),
        }
    }
}

/// The raw spans a text segments into for a resolved locale: the
/// dictionary-based segmenter for Chinese, Unicode word boundaries for every
/// other locale and for an unknown language.
pub open spec fn spec_segmented(text: Seq<char>, locale: Option<Language>) -> Seq<Seq<char>> {
    if locale == Some(Language::Chinese) {
        spec_jieba_words(text)
    } else {
        spec_unicode_words(text)
    }
}

/// The locale stopword filtering uses: none under `NormalizeOnly`, the
/// resolved locale otherwise.
pub open spec fn spec_filter_locale(
    mode: TokenLexerMode,
    locale: Option<Language>,
) -> Option<Language> {
    match mode {
        TokenLexerMode::NormalizeOnly => None,
        _ => locale,
    }
}

/// The stopword list one run holds: the filtering locale's list, or empty
/// when filtering is off or the language is unknown. It is built once per
/// run, at construction, never per token.
pub open spec fn spec_filter_list(
    mode: TokenLexerMode,
    locale: Option<Language>,
) -> Seq<Seq<char>> {
    match spec_filter_locale(mode, locale) {
        Some(l) => spec_stopwords(l),
        None => Seq::empty(),
    }
}

/// The output of the normalization and filter pipeline on a sequence of raw
/// spans, given the hashes already yielded: each span is lowercased; a
/// stopword for the filtering locale is discarded; a token whose term hash
/// was already yielded is discarded as a duplicate; every other token is
/// yielded with its term hash, in first-occurrence order.
pub open spec fn spec_pipeline(
    words: Seq<Seq<char>>,
    filter: Option<Language>,
    yielded: Set<u32>,
) -> Seq<(Seq<char>, u32)>
    decreases words.len(),
{
    if words.len() == 0 {
        Seq::empty()
    } else {
        let w = spec_lowercase(words[0]);
        let h = spec_term_hash(w);
        let rest = words.drop_first();
        if !spec_is_stopword(w, filter) && !yielded.contains(h) {
            seq![(w, h)] + spec_pipeline(rest, filter, yielded.insert(h))
        } else {
            spec_pipeline(rest, filter, yielded)
        }
    }
}

/// The entire output of one run over a text, in a mode, for the locale the
/// run resolved.
pub open spec fn spec_run(
    text: Seq<char>,
    mode: TokenLexerMode,
    locale: Option<Language>,
) -> Seq<(Seq<char>, u32)> {
    spec_pipeline(
        spec_segmented(text, locale),
        spec_filter_locale(mode, locale),
        Set::empty(),
    )
}

/// Determinism: two runs over identical text, in identical modes, that
/// resolved the identical locale yield the identical output sequence, tokens
/// and hashes alike, in the same order. The resolved locale must be assumed
/// equal because an auto-detected locale is an outside statistical verdict
/// that near-tied inputs may flip between calls; a hinted or disabled mode
/// fixes the locale, so for those modes the assumption always holds.
pub proof fn lemma_run_deterministic(
    text1: Seq<char>,
    mode1: TokenLexerMode,
    locale1: Option<Language>,
    text2: Seq<char>,
    mode2: TokenLexerMode,
    locale2: Option<Language>,
)
    requires
        text1 == text2,
        mode1 == mode2,
        locale1 == locale2,
    ensures
        spec_run(text1, mode1, locale1) == spec_run(text2, mode2, locale2),
{
}

proof fn lemma_pipeline_hashes_fresh_and_unique(
    words: Seq<Seq<char>>,
    filter: Option<Language>,
    yielded: Set<u32>,
)
    ensures
        forall|i: int|
            0 <= i < spec_pipeline(words, filter, yielded).len() ==> !yielded.contains(
                #[trigger] spec_pipeline(words, filter, yielded)[i].1,
            ),
        forall|i: int, j: int|
            0 <= i < j < spec_pipeline(words, filter, yielded).len() ==> #[trigger] spec_pipeline(
                words,
                filter,
                yielded,
            )[i].1 != #[trigger] spec_pipeline(words, filter, yielded)[j].1,
    decreases words.len(),
{
    if words.len() == 0 {
    } else {
        let w = spec_lowercase(words[0]);
        let h = spec_term_hash(w);
        let rest = words.drop_first();
        let out = spec_pipeline(words, filter, yielded);
        if !spec_is_stopword(w, filter) && !yielded.contains(h) {
            let tail = spec_pipeline(rest, filter, yielded.insert(h));
            lemma_pipeline_hashes_fresh_and_unique(rest, filter, yielded.insert(h));
            assert(out == seq![(w, h)] + tail);
            assert(out[0] == (w, h));
            assert forall|i: int| 0 <= i < out.len() implies !yielded.contains(out[i].1) by {
                if i > 0 {
                    assert(out[i] == tail[i - 1]);
                    assert(!yielded.insert(h).contains(tail[i - 1].1));
                }
            }
            assert forall|i: int, j: int| 0 <= i < j < out.len() implies out[i].1 != out[j].1 by {
                assert(out[j] == tail[j - 1]);
                assert(!yielded.insert(h).contains(tail[j - 1].1));
                if i == 0 {
                    assert(out[i].1 == h);
                    assert(yielded.insert(h).contains(h));
                } else {
                    assert(out[i] == tail[i - 1]);
                }
            }
        } else {
            lemma_pipeline_hashes_fresh_and_unique(rest, filter, yielded);
            let tail = spec_pipeline(rest, filter, yielded);
            assert(out == tail);
            assert forall|i: int| 0 <= i < out.len() implies !yielded.contains(out[i].1) by {
                assert(!yielded.contains(tail[i].1));
            }
            assert forall|i: int, j: int| 0 <= i < j < out.len() implies out[i].1 != out[j].1 by {
                assert(tail[i].1 != tail[j].1);
            }
        }
    }
}

/// Uniqueness: within one run's output no term hash repeats.
pub proof fn lemma_run_hashes_unique(
    text: Seq<char>,
    mode: TokenLexerMode,
    locale: Option<Language>,
)
    ensures
        forall|i: int, j: int|
            0 <= i < j < spec_run(text, mode, locale).len() ==> #[trigger] spec_run(
                text,
                mode,
                locale,
            )[i].1 != #[trigger] spec_run(text, mode, locale)[j].1,
{
    lemma_pipeline_hashes_fresh_and_unique(
        spec_segmented(text, locale),
        spec_filter_locale(mode, locale),
        Set::empty(),
    );
}

/// Under `NormalizeOnly` no stopword filtering runs: a run over two
/// identical spans yields the folded span exactly once — the duplicate is
/// removed by hash deduplication, never by filtering.
pub proof fn lemma_normalize_only_dedups(w: Seq<char>, locale: Option<Language>)
    ensures
        spec_pipeline(
            seq![w, w],
            spec_filter_locale(TokenLexerMode::NormalizeOnly, locale),
            Set::<u32>::empty(),
        ) == seq![(spec_lowercase(w), spec_term_hash(spec_lowercase(w)))],
{
    let f = spec_lowercase(w);
    let h = spec_term_hash(f);
    let two = seq![w, w];
    let one = seq![w];
    let once = Set::<u32>::empty().insert(h);
    assert(two[0] == w);
    assert(one[0] == w);
    assert(two.drop_first() =~= one);
    assert(one.drop_first() =~= Seq::<Seq<char>>::empty());
    assert(!spec_is_stopword(f, None::<Language>));
    assert(once.contains(h));
    assert(spec_pipeline(Seq::<Seq<char>>::empty(), None, once) =~= Seq::<(
        Seq<char>,
        u32,
    )>::empty());
    assert(spec_pipeline(one, None, once) == spec_pipeline(one.drop_first(), None, once));
    assert(spec_pipeline(two, None, Set::<u32>::empty()) =~= seq![(f, h)]);
}

/// One pipeline run: a pull-based, forward-only sequence of unique,
/// normalized, filtered tokens paired with their term hashes. The raw spans
/// are materialized at construction, so a run's memory is bounded by the
/// segmented text plus the run-scoped set of yielded hashes; filtering,
/// hashing and deduplication stay lazy, one pulled token at a time.
pub struct TokenLexer {
    mode: TokenLexerMode,
    locale: Option<Language>,
    words: Vec<String>,
    stopwords: Vec<String>,
    pos: usize,
    yields: HashSet<StoreTermHashed>,
}

pub struct TokenLexerBuilder;

impl TokenLexer {
    pub closed spec fn wf(self) -> bool {
        &&& self.pos <= self.words@.len()
        &&& self.stopwords.deep_view() == spec_filter_list(self.mode, self.locale)
    }

    pub closed spec fn spec_mode(self) -> TokenLexerMode {
        self.mode
    }

    pub closed spec fn spec_locale(self) -> Option<Language> {
        self.locale
    }

    /// The tokens this run will still yield, in order.
    pub closed spec fn remaining(self) -> Seq<(Seq<char>, u32)> {
        spec_pipeline(
            self.words.deep_view().skip(self.pos as int),
            spec_filter_locale(self.mode, self.locale),
            self.yields@,
        )
    }

    fn new(mode: TokenLexerMode, text: &str, locale: Option<Language>) -> (r: TokenLexer)
        ensures
            r.wf(),
            r.spec_mode() == mode,
            r.spec_locale() == locale,
            r.remaining() == spec_run(text@, mode, locale),
    {
        let words = match locale {
            Some(Language::Chinese) => jieba_words_vec(text),
            _ => unicode_words_vec(text),
        };
        // The filtering locale's stopword list is built once per run, here,
        // never per token.
        let stopwords: Vec<String> = match mode {
            TokenLexerMode::NormalizeOnly => Vec::new(),
            TokenLexerMode::NormalizeAndCleanup(_) => match locale {
                Some(l) => LexerStopWord::lang_stopwords(l),
                None => Vec::new(),
            },
        };
        let r = TokenLexer { mode, locale, words, stopwords, pos: 0, yields: HashSet::new() };
        proof {
            assert(r.words.deep_view().skip(0) =~= spec_segmented(text@, locale));
            assert(r.stopwords.deep_view() =~= spec_filter_list(mode, locale));
        }
        r
    }

    /// The locale this run resolved: absent when classification was
    /// inconclusive or when cleanup is off.
    pub fn locale(&self) -> (r: Option<Language>)
        ensures
            r == self.spec_locale(),
    {
        self.locale
    }

    /// Pulls the next unique normalized token and its term hash, or reports
    /// that the run is exhausted.
    pub fn next(&mut self) -> (r: Option<(String, StoreTermHashed)>)
        requires
            old(self).wf(),
        ensures
            final(self).wf(),
            final(self).spec_mode() == old(self).spec_mode(),
            final(self).spec_locale() == old(self).spec_locale(),
            match r {
                Some(p) => {
                    &&& old(self).remaining().len() > 0
                    &&& p.0@ == old(self).remaining()[0].0
                    &&& p.1 == old(self).remaining()[0].1
                    &&& final(self).remaining() == old(self).remaining().drop_first()
                },
                None => {
                    &&& old(self).remaining().len() == 0
                    &&& final(self).remaining() == old(self).remaining()
                },
            },
    {
        while self.pos < self.words.len()
            invariant
                self.wf(),
                self.mode == old(self).mode,
                self.locale == old(self).locale,
                self.words == old(self).words,
                self.stopwords == old(self).stopwords,
                self.remaining() == old(self).remaining(),
            decreases self.words@.len() - self.pos,
        {
            let ghost words_dv = self.words.deep_view();
            let ghost p = self.pos as int;
            let ghost filt = spec_filter_locale(self.mode, self.locale);
            proof {
                assert(words_dv.skip(p)[0] == words_dv[p]);
                assert(words_dv.skip(p).drop_first() =~= words_dv.skip(p + 1));
            }
            let word = lowercase(self.words[self.pos].as_str());
            let ghost w = word@;
            proof {
                assert(w == spec_lowercase(words_dv[p]));
            }
            let stop = contains_word(&self.stopwords, word.as_str());
            proof {
                if filt is None {
                    assert(!Seq::<Seq<char>>::empty().contains(w));
                }
                assert(stop == spec_is_stopword(w, filt));
            }
            if !stop {
                let term_hash = StoreTermHash::from(word.as_str());
                if !self.yields.contains(&term_hash) {
                    let ghost y = self.yields@;
                    proof {
                        assert(spec_pipeline(words_dv.skip(p), filt, y) == seq![
                            (w, spec_term_hash(w)),
                        ] + spec_pipeline(words_dv.skip(p + 1), filt, y.insert(spec_term_hash(w))));
                        assert(spec_pipeline(words_dv.skip(p), filt, y)[0] == (
                            w,
                            spec_term_hash(w),
                        ));
                        assert((seq![(w, spec_term_hash(w))] + spec_pipeline(
                            words_dv.skip(p + 1),
                            filt,
                            y.insert(spec_term_hash(w)),
                        )).drop_first() =~= spec_pipeline(
                            words_dv.skip(p + 1),
                            filt,
                            y.insert(spec_term_hash(w)),
                        ));
                    }
                    self.yields.insert(term_hash);
                    self.pos = self.pos + 1;
                    return Some((word, term_hash));
                }
            }
            proof {
                assert(spec_pipeline(words_dv.skip(p), filt, self.yields@) == spec_pipeline(
                    words_dv.skip(p + 1),
                    filt,
                    self.yields@,
                ));
            }
            self.pos = self.pos + 1;
        }
        proof {
            assert(self.words.deep_view().skip(self.pos as int).len() == 0);
        }
        None
    }
}

impl TokenLexerBuilder {
    /// Builds a pipeline run over a text. Construction cannot fail: the mode
    /// is kept; a hinted language forces the locale; under `NormalizeOnly`
    /// the locale is absent; in detect-and-clean mode without a hint the
    /// locale records the classifier's verdict, whatever it was; and the
    /// run's output is the pipeline that the text, the mode and that
    /// resolved locale determine.
    pub fn from(mode: TokenLexerMode, text: &str) -> (r: Result<TokenLexer, ()>)
        ensures
            r is Ok,
            r matches Ok(lexer) ==> {
                &&& lexer.wf()
                &&& lexer.spec_mode() == mode
                &&& (mode matches TokenLexerMode::NormalizeAndCleanup(Some(l))
                    ==> lexer.spec_locale() == Some(l))
                &&& (mode is NormalizeOnly ==> lexer.spec_locale() is None)
                &&& lexer.remaining() == spec_run(text@, mode, lexer.spec_locale())
            },
    {
        let locale = match mode {
            TokenLexerMode::NormalizeAndCleanup(None) => Self::detect_lang(text),
            TokenLexerMode::NormalizeAndCleanup(Some(lang)) => Some(lang),
            TokenLexerMode::NormalizeOnly => None,
        };
        Ok(TokenLexer::new(mode, text, locale))
    }

    /// Classifies the language of a text, handing the detector no more than
    /// the text's first 200 characters (`spec_truncated`, cut between
    /// characters). Never fails on valid input: empty, symbol-only or
    /// emoji-only text gives an absent, inconclusive verdict. The verdict
    /// itself is the detector's statistical best effort over the languages
    /// this build compiles, and is not promised to be a function of the
    /// text; whatever comes back, it is one of the supported languages.
    pub fn detect_lang(text: &str) -> (r: Option<Language>)
        ensures
            text@.len() == 0 ==> r is None,
    {
        let safe_text = if text.unicode_len() > TEXT_LANG_TRUNCATE_OVER_CHARS {
            text.substring_char(0, TEXT_LANG_TRUNCATE_OVER_CHARS)
        } else {
            text
        };
        proof {
            assert(safe_text@ == spec_truncated(text@));
        }
        match detect_iso_code(safe_text) {
            Some(code) => Language::from_code(code.as_str()),
            None => None,
        }
    }
}

} // verus!
