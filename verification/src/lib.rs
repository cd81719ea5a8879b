//! Lexical front end for a schema-less search engine: it turns raw text into
//! a deduplicated stream of normalized tokens with stable 32-bit term
//! identifiers, choosing a stopword list and a segmentation strategy from a
//! best-effort language classification or from an explicit language hint.

pub mod lang;
pub mod hash;
pub mod stopwords;
pub mod query;
pub mod token;
