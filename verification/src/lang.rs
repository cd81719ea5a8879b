use vstd::prelude::*;
use vstd::string::StrSliceExecFns;

verus! {

/// The closed set of languages this lexer can be told about or can detect.
/// Each value corresponds to one standardized ISO 639-3 three-letter code.
#[derive(Clone, Copy, Debug, PartialEq, Eq, Structural)]
pub enum Language {
    Afrikaans,
    Albanian,
    Arabic,
    Armenian,
    Azerbaijani,
    Basque,
    Belarusian,
    Bengali,
    Bokmal,
    Bosnian,
    Bulgarian,
    Catalan,
    Chinese,
    Croatian,
    Czech,
    Danish,
    Dutch,
    English,
    Esperanto,
    Estonian,
    Finnish,
    French,
    Ganda,
    Georgian,
    German,
    Greek,
    Gujarati,
    Hebrew,
    Hindi,
    Hungarian,
    Icelandic,
    Indonesian,
    Irish,
    Italian,
    Japanese,
    Kazakh,
    Korean,
    Latin,
    Latvian,
    Lithuanian,
    Macedonian,
    Malay,
    Maori,
    Marathi,
    Mongolian,
    Nynorsk,
    Persian,
    Polish,
    Portuguese,
    Punjabi,
    Romanian,
    Russian,
    Serbian,
    Shona,
    Slovak,
    Slovene,
    Somali,
    Sotho,
    Spanish,
    Swahili,
    Swedish,
    Tagalog,
    Tamil,
    Telugu,
    Thai,
    Tsonga,
    Tswana,
    Turkish,
    Ukrainian,
    Urdu,
    Vietnamese,
    Welsh,
    Xhosa,
    Yoruba,
    Zulu,
}

/// ASCII case folding for a single character: 'A'..'Z' map to 'a'..'z',
/// every other character is unchanged.
pub open spec fn spec_ascii_lower(c: char) -> char {
    match c {
        'A' => 'a',
        'B' => 'b',
        'C' => 'c',
        'D' => 'd',
        'E' => 'e',
        'F' => 'f',
        'G' => 'g',
        'H' => 'h',
        'I' => 'i',
        'J' => 'j',
        'K' => 'k',
        'L' => 'l',
        'M' => 'm',
        'N' => 'n',
        'O' => 'o',
        'P' => 'p',
        'Q' => 'q',
        'R' => 'r',
        'S' => 's',
        'T' => 't',
        'U' => 'u',
        'V' => 'v',
        'W' => 'w',
        'X' => 'x',
        'Y' => 'y',
        'Z' => 'z',
        _ => c,
    }
}

fn ascii_lower_char(c: char) -> (r: char)
    ensures
        r == spec_ascii_lower(c),
{
    match c {
        'A' => 'a',
        'B' => 'b',
        'C' => 'c',
        'D' => 'd',
        'E' => 'e',
        'F' => 'f',
        'G' => 'g',
        'H' => 'h',
        'I' => 'i',
        'J' => 'j',
        'K' => 'k',
        'L' => 'l',
        'M' => 'm',
        'N' => 'n',
        'O' => 'o',
        'P' => 'p',
        'Q' => 'q',
        'R' => 'r',
        'S' => 's',
        'T' => 't',
        'U' => 'u',
        'V' => 'v',
        'W' => 'w',
        'X' => 'x',
        'Y' => 'y',
        'Z' => 'z',
        _ => c,
    }
}

/// The three characters of a code, ASCII-lowered, when the code has exactly
/// three characters.
pub open spec fn spec_lower3(code: Seq<char>) -> Option<(char, char, char)> {
    if code.len() == 3 {
        Some((spec_ascii_lower(code[0]), spec_ascii_lower(code[1]), spec_ascii_lower(code[2])))
    } else {
        None
    }
}

/// The language whose ISO 639-3 code is the given lower-case character triple.
pub open spec fn spec_lang_of_lower3(a: char, b: char, c: char) -> Option<Language> {
    if a == 'a' && b == 'f' && c == 'r' {
        Some(Language::Afrikaans)
    } else if a == 's' && b == 'q' && c == 'i' {
        Some(Language::Albanian)
    } else if a == 'a' && b == 'r' && c == 'a' {
        Some(Language::Arabic)
    } else if a == 'h' && b == 'y' && c == 'e' {
        Some(Language::Armenian)
    } else if a == 'a' && b == 'z' && c == 'e' {
        Some(Language::Azerbaijani)
    } else if a == 'e' && b == 'u' && c == 's' {
        Some(Language::Basque)
    } else if a == 'b' && b == 'e' && c == 'l' {
        Some(Language::Belarusian)
    } else if a == 'b' && b == 'e' && c == 'n' {
        Some(Language::Bengali)
    } else if a == 'n' && b == 'o' && c == 'b' {
        Some(Language::Bokmal)
    } else if a == 'b' && b == 'o' && c == 's' {
        Some(Language::Bosnian)
    } else if a == 'b' && b == 'u' && c == 'l' {
        Some(Language::Bulgarian)
    } else if a == 'c' && b == 'a' && c == 't' {
        Some(Language::Catalan)
    } else if a == 'z' && b == 'h' && c == 'o' {
        Some(Language::Chinese)
    } else if a == 'h' && b == 'r' && c == 'v' {
        Some(Language::Croatian)
    } else if a == 'c' && b == 'e' && c == 's' {
        Some(Language::Czech)
    } else if a == 'd' && b == 'a' && c == 'n' {
        Some(Language::Danish)
    } else if a == 'n' && b == 'l' && c == 'd' {
        Some(Language::Dutch)
    } else if a == 'e' && b == 'n' && c == 'g' {
        Some(Language::English)
    } else if a == 'e' && b == 'p' && c == 'o' {
        Some(Language::Esperanto)
    } else if a == 'e' && b == 's' && c == 't' {
        Some(Language::Estonian)
    } else if a == 'f' && b == 'i' && c == 'n' {
        Some(Language::Finnish)
    } else if a == 'f' && b == 'r' && c == 'a' {
        Some(Language::French)
    } else if a == 'l' && b == 'u' && c == 'g' {
        Some(Language::Ganda)
    } else if a == 'k' && b == 'a' && c == 't' {
        Some(Language::Georgian)
    } else if a == 'd' && b == 'e' && c == 'u' {
        Some(Language::German)
    } else if a == 'e' && b == 'l' && c == 'l' {
        Some(Language::Greek)
    } else if a == 'g' && b == 'u' && c == 'j' {
        Some(Language::Gujarati)
    } else if a == 'h' && b == 'e' && c == 'b' {
        Some(Language::Hebrew)
    } else if a == 'h' && b == 'i' && c == 'n' {
        Some(Language::Hindi)
    } else if a == 'h' && b == 'u' && c == 'n' {
        Some(Language::Hungarian)
    } else if a == 'i' && b == 's' && c == 'l' {
        Some(Language::Icelandic)
    } else if a == 'i' && b == 'n' && c == 'd' {
        Some(Language::Indonesian)
    } else if a == 'g' && b == 'l' && c == 'e' {
        Some(Language::Irish)
    } else if a == 'i' && b == 't' && c == 'a' {
        Some(Language::Italian)
    } else if a == 'j' && b == 'p' && c == 'n' {
        Some(Language::Japanese)
    } else if a == 'k' && b == 'a' && c == 'z' {
        Some(Language::Kazakh)
    } else if a == 'k' && b == 'o' && c == 'r' {
        Some(Language::Korean)
    } else if a == 'l' && b == 'a' && c == 't' {
        Some(Language::Latin)
    } else if a == 'l' && b == 'a' && c == 'v' {
        Some(Language::Latvian)
    } else if a == 'l' && b == 'i' && c == 't' {
        Some(Language::Lithuanian)
    } else if a == 'm' && b == 'k' && c == 'd' {
        Some(Language::Macedonian)
    } else if a == 'm' && b == 's' && c == 'a' {
        Some(Language::Malay)
    } else if a == 'm' && b == 'r' && c == 'i' {
        Some(Language::Maori)
    } else if a == 'm' && b == 'a' && c == 'r' {
        Some(Language::Marathi)
    } else if a == 'm' && b == 'o' && c == 'n' {
        Some(Language::Mongolian)
    } else if a == 'n' && b == 'n' && c == 'o' {
        Some(Language::Nynorsk)
    } else if a == 'f' && b == 'a' && c == 's' {
        Some(Language::Persian)
    } else if a == 'p' && b == 'o' && c == 'l' {
        Some(Language::Polish)
    } else if a == 'p' && b == 'o' && c == 'r' {
        Some(Language::Portuguese)
    } else if a == 'p' && b == 'a' && c == 'n' {
        Some(Language::Punjabi)
    } else if a == 'r' && b == 'o' && c == 'n' {
        Some(Language::Romanian)
    } else if a == 'r' && b == 'u' && c == 's' {
        Some(Language::Russian)
    } else if a == 's' && b == 'r' && c == 'p' {
        Some(Language::Serbian)
    } else if a == 's' && b == 'n' && c == 'a' {
        Some(Language::Shona)
    } else if a == 's' && b == 'l' && c == 'k' {
        Some(Language::Slovak)
    } else if a == 's' && b == 'l' && c == 'v' {
        Some(Language::Slovene)
    } else if a == 's' && b == 'o' && c == 'm' {
        Some(Language::Somali)
    } else if a == 's' && b == 'o' && c == 't' {
        Some(Language::Sotho)
    } else if a == 's' && b == 'p' && c == 'a' {
        Some(Language::Spanish)
    } else if a == 's' && b == 'w' && c == 'a' {
        Some(Language::Swahili)
    } else if a == 's' && b == 'w' && c == 'e' {
        Some(Language::Swedish)
    } else if a == 't' && b == 'g' && c == 'l' {
        Some(Language::Tagalog)
    } else if a == 't' && b == 'a' && c == 'm' {
        Some(Language::Tamil)
    } else if a == 't' && b == 'e' && c == 'l' {
        Some(Language::Telugu)
    } else if a == 't' && b == 'h' && c == 'a' {
        Some(Language::Thai)
    } else if a == 't' && b == 's' && c == 'o' {
        Some(Language::Tsonga)
    } else if a == 't' && b == 's' && c == 'n' {
        Some(Language::Tswana)
    } else if a == 't' && b == 'u' && c == 'r' {
        Some(Language::Turkish)
    } else if a == 'u' && b == 'k' && c == 'r' {
        Some(Language::Ukrainian)
    } else if a == 'u' && b == 'r' && c == 'd' {
        Some(Language::Urdu)
    } else if a == 'v' && b == 'i' && c == 'e' {
        Some(Language::Vietnamese)
    } else if a == 'c' && b == 'y' && c == 'm' {
        Some(Language::Welsh)
    } else if a == 'x' && b == 'h' && c == 'o' {
        Some(Language::Xhosa)
    } else if a == 'y' && b == 'o' && c == 'r' {
        Some(Language::Yoruba)
    } else if a == 'z' && b == 'u' && c == 'l' {
        Some(Language::Zulu)
    } else {
        None
    }
}

/// The language a selector string resolves to: the string must have exactly
/// three characters and, after ASCII case folding, be one of the supported
/// ISO 639-3 codes.
pub open spec fn spec_lang_of_code(code: Seq<char>) -> Option<Language> {
    match spec_lower3(code) {
        Some((a, b, c)) => spec_lang_of_lower3(a, b, c),
        None => None,
    }
}

impl Language {
    /// Resolves a standardized three-letter ISO 639-3 code, ignoring ASCII
    /// case, to the language it names.
    pub fn from_code(code: &str) -> (r: Option<Language>)
        ensures
            r == spec_lang_of_code(code@),
    {
        if code.unicode_len() != 3 {
            return None;
        }
        let a = ascii_lower_char(code.get_char(0));
        let b = ascii_lower_char(code.get_char(1));
        let c = ascii_lower_char(code.get_char(2));
        if a == 'a' && b == 'f' && c == 'r' {
            Some(Language::Afrikaans)
        } else if a == 's' && b == 'q' && c == 'i' {
            Some(Language::Albanian)
        } else if a == 'a' && b == 'r' && c == 'a' {
            Some(Language::Arabic)
        } else if a == 'h' && b == 'y' && c == 'e' {
            Some(Language::Armenian)
        } else if a == 'a' && b == 'z' && c == 'e' {
            Some(Language::Azerbaijani)
        } else if a == 'e' && b == 'u' && c == 's' {
            Some(Language::Basque)
        } else if a == 'b' && b == 'e' && c == 'l' {
            Some(Language::Belarusian)
        } else if a == 'b' && b == 'e' && c == 'n' {
            Some(Language::Bengali)
        } else if a == 'n' && b == 'o' && c == 'b' {
            Some(Language::Bokmal)
        } else if a == 'b' && b == 'o' && c == 's' {
            Some(Language::Bosnian)
        } else if a == 'b' && b == 'u' && c == 'l' {
            Some(Language::Bulgarian)
        } else if a == 'c' && b == 'a' && c == 't' {
            Some(Language::Catalan)
        } else if a == 'z' && b == 'h' && c == 'o' {
            Some(Language::Chinese)
        } else if a == 'h' && b == 'r' && c == 'v' {
            Some(Language::Croatian)
        } else if a == 'c' && b == 'e' && c == 's' {
            Some(Language::Czech)
        } else if a == 'd' && b == 'a' && c == 'n' {
            Some(Language::Danish)
        } else if a == 'n' && b == 'l' && c == 'd' {
            Some(Language::Dutch)
        } else if a == 'e' && b == 'n' && c == 'g' {
            Some(Language::English)
        } else if a == 'e' && b == 'p' && c == 'o' {
            Some(Language::Esperanto)
        } else if a == 'e' && b == 's' && c == 't' {
            Some(Language::Estonian)
        } else if a == 'f' && b == 'i' && c == 'n' {
            Some(Language::Finnish)
        } else if a == 'f' && b == 'r' && c == 'a' {
            Some(Language::French)
        } else if a == 'l' && b == 'u' && c == 'g' {
            Some(Language::Ganda)
        } else if a == 'k' && b == 'a' && c == 't' {
            Some(Language::Georgian)
        } else if a == 'd' && b == 'e' && c == 'u' {
            Some(Language::German)
        } else if a == 'e' && b == 'l' && c == 'l' {
            Some(Language::Greek)
        } else if a == 'g' && b == 'u' && c == 'j' {
            Some(Language::Gujarati)
        } else if a == 'h' && b == 'e' && c == 'b' {
            Some(Language::Hebrew)
        } else if a == 'h' && b == 'i' && c == 'n' {
            Some(Language::Hindi)
        } else if a == 'h' && b == 'u' && c == 'n' {
            Some(Language::Hungarian)
        } else if a == 'i' && b == 's' && c == 'l' {
            Some(Language::Icelandic)
        } else if a == 'i' && b == 'n' && c == 'd' {
            Some(Language::Indonesian)
        } else if a == 'g' && b == 'l' && c == 'e' {
            Some(Language::Irish)
        } else if a == 'i' && b == 't' && c == 'a' {
            Some(Language::Italian)
        } else if a == 'j' && b == 'p' && c == 'n' {
            Some(Language::Japanese)
        } else if a == 'k' && b == 'a' && c == 'z' {
            Some(Language::Kazakh)
        } else if a == 'k' && b == 'o' && c == 'r' {
            Some(Language::Korean)
        } else if a == 'l' && b == 'a' && c == 't' {
            Some(Language::Latin)
        } else if a == 'l' && b == 'a' && c == 'v' {
            Some(Language::Latvian)
        } else if a == 'l' && b == 'i' && c == 't' {
            Some(Language::Lithuanian)
        } else if a == 'm' && b == 'k' && c == 'd' {
            Some(Language::Macedonian)
        } else if a == 'm' && b == 's' && c == 'a' {
            Some(Language::Malay)
        } else if a == 'm' && b == 'r' && c == 'i' {
            Some(Language::Maori)
        } else if a == 'm' && b == 'a' && c == 'r' {
            Some(Language::Marathi)
        } else if a == 'm' && b == 'o' && c == 'n' {
            Some(Language::Mongolian)
        } else if a == 'n' && b == 'n' && c == 'o' {
            Some(Language::Nynorsk)
        } else if a == 'f' && b == 'a' && c == 's' {
            Some(Language::Persian)
        } else if a == 'p' && b == 'o' && c == 'l' {
            Some(Language::Polish)
        } else if a == 'p' && b == 'o' && c == 'r' {
            Some(Language::Portuguese)
        } else if a == 'p' && b == 'a' && c == 'n' {
            Some(Language::Punjabi)
        } else if a == 'r' && b == 'o' && c == 'n' {
            Some(Language::Romanian)
        } else if a == 'r' && b == 'u' && c == 's' {
            Some(Language::Russian)
        } else if a == 's' && b == 'r' && c == 'p' {
            Some(Language::Serbian)
        } else if a == 's' && b == 'n' && c == 'a' {
            Some(Language::Shona)
        } else if a == 's' && b == 'l' && c == 'k' {
            Some(Language::Slovak)
        } else if a == 's' && b == 'l' && c == 'v' {
            Some(Language::Slovene)
        } else if a == 's' && b == 'o' && c == 'm' {
            Some(Language::Somali)
        } else if a == 's' && b == 'o' && c == 't' {
            Some(Language::Sotho)
        } else if a == 's' && b == 'p' && c == 'a' {
            Some(Language::Spanish)
        } else if a == 's' && b == 'w' && c == 'a' {
            Some(Language::Swahili)
        } else if a == 's' && b == 'w' && c == 'e' {
            Some(Language::Swedish)
        } else if a == 't' && b == 'g' && c == 'l' {
            Some(Language::Tagalog)
        } else if a == 't' && b == 'a' && c == 'm' {
            Some(Language::Tamil)
        } else if a == 't' && b == 'e' && c == 'l' {
            Some(Language::Telugu)
        } else if a == 't' && b == 'h' && c == 'a' {
            Some(Language::Thai)
        } else if a == 't' && b == 's' && c == 'o' {
            Some(Language::Tsonga)
        } else if a == 't' && b == 's' && c == 'n' {
            Some(Language::Tswana)
        } else if a == 't' && b == 'u' && c == 'r' {
            Some(Language::Turkish)
        } else if a == 'u' && b == 'k' && c == 'r' {
            Some(Language::Ukrainian)
        } else if a == 'u' && b == 'r' && c == 'd' {
            Some(Language::Urdu)
        } else if a == 'v' && b == 'i' && c == 'e' {
            Some(Language::Vietnamese)
        } else if a == 'c' && b == 'y' && c == 'm' {
            Some(Language::Welsh)
        } else if a == 'x' && b == 'h' && c == 'o' {
            Some(Language::Xhosa)
        } else if a == 'y' && b == 'o' && c == 'r' {
            Some(Language::Yoruba)
        } else if a == 'z' && b == 'u' && c == 'l' {
            Some(Language::Zulu)
        } else {
            None
        }
    }
}

} // verus!
