use vstd::prelude::*;
use vstd::string::StringExecFns;
use crate::lang::Language;

verus! {

/// The curated stopword list for ISO 639-3 code `eng`.
pub open spec fn spec_stopwords_eng() -> Seq<Seq<char>> {
    seq![
        "a"@,
        "an"@,
        "and"@,
        "are"@,
        "as"@,
        "at"@,
        "be"@,
        "been"@,
        "before"@,
        "but"@,
        "by"@,
        "can"@,
        "did"@,
        "do"@,
        "down"@,
        "for"@,
        "from"@,
        "had"@,
        "has"@,
        "have"@,
        "he"@,
        "her"@,
        "hers"@,
        "him"@,
        "his"@,
        "how"@,
        "i"@,
        "if"@,
        "in"@,
        "into"@,
        "is"@,
        "it"@,
        "its"@,
        "just"@,
        "me"@,
        "more"@,
        "most"@,
        "my"@,
        "no"@,
        "nor"@,
        "not"@,
        "now"@,
        "of"@,
        "off"@,
        "on"@,
        "once"@,
        "only"@,
        "or"@,
        "our"@,
        "out"@,
        "over"@,
        "own"@,
        "she"@,
        "so"@,
        "some"@,
        "such"@,
        "than"@,
        "that"@,
        "the"@,
        "their"@,
        "them"@,
        "then"@,
        "there"@,
        "these"@,
        "they"@,
        "this"@,
        "those"@,
        "through"@,
        "to"@,
        "too"@,
        "under"@,
        "until"@,
        "up"@,
        "very"@,
        "was"@,
        "we"@,
        "were"@,
        "what"@,
        "when"@,
        "where"@,
        "which"@,
        "while"@,
        "who"@,
        "whom"@,
        "why"@,
        "will"@,
        "with"@,
        "you"@,
        "your"@,
    ]
}

fn eng_list() -> (r: Vec<String>)
    ensures
        r.deep_view() == spec_stopwords_eng(),
{
    let mut v: Vec<String> = Vec::new();
    v.push(String::from_str("a"));
    v.push(String::from_str("an"));
    v.push(String::from_str("and"));
    v.push(String::from_str("are"));
    v.push(String::from_str("as"));
    v.push(String::from_str("at"));
    v.push(String::from_str("be"));
    v.push(String::from_str("been"));
    v.push(String::from_str("before"));
    v.push(String::from_str("but"));
    v.push(String::from_str("by"));
    v.push(String::from_str("can"));
    v.push(String::from_str("did"));
    v.push(String::from_str("do"));
    v.push(String::from_str("down"));
    v.push(String::from_str("for"));
    v.push(String::from_str("from"));
    v.push(String::from_str("had"));
    v.push(String::from_str("has"));
    v.push(String::from_str("have"));
    v.push(String::from_str("he"));
    v.push(String::from_str("her"));
    v.push(String::from_str("hers"));
    v.push(String::from_str("him"));
    v.push(String::from_str("his"));
    v.push(String::from_str("how"));
    v.push(String::from_str("i"));
    v.push(String::from_str("if"));
    v.push(String::from_str("in"));
    v.push(String::from_str("into"));
    v.push(String::from_str("is"));
    v.push(String::from_str("it"));
    v.push(String::from_str("its"));
    v.push(String::from_str("just"));
    v.push(String::from_str("me"));
    v.push(String::from_str("more"));
    v.push(String::from_str("most"));
    v.push(String::from_str("my"));
    v.push(String::from_str("no"));
    v.push(String::from_str("nor"));
    v.push(String::from_str("not"));
    v.push(String::from_str("now"));
    v.push(String::from_str("of"));
    v.push(String::from_str("off"));
    v.push(String::from_str("on"));
    v.push(String::from_str("once"));
    v.push(String::from_str("only"));
    v.push(String::from_str("or"));
    v.push(String::from_str("our"));
    v.push(String::from_str("out"));
    v.push(String::from_str("over"));
    v.push(String::from_str("own"));
    v.push(String::from_str("she"));
    v.push(String::from_str("so"));
    v.push(String::from_str("some"));
    v.push(String::from_str("such"));
    v.push(String::from_str("than"));
    v.push(String::from_str("that"));
    v.push(String::from_str("the"));
    v.push(String::from_str("their"));
    v.push(String::from_str("them"));
    v.push(String::from_str("then"));
    v.push(String::from_str("there"));
    v.push(String::from_str("these"));
    v.push(String::from_str("they"));
    v.push(String::from_str("this"));
    v.push(String::from_str("those"));
    v.push(String::from_str("through"));
    v.push(String::from_str("to"));
    v.push(String::from_str("too"));
    v.push(String::from_str("under"));
    v.push(String::from_str("until"));
    v.push(String::from_str("up"));
    v.push(String::from_str("very"));
    v.push(String::from_str("was"));
    v.push(String::from_str("we"));
    v.push(String::from_str("were"));
    v.push(String::from_str("what"));
    v.push(String::from_str("when"));
    v.push(String::from_str("where"));
    v.push(String::from_str("which"));
    v.push(String::from_str("while"));
    v.push(String::from_str("who"));
    v.push(String::from_str("whom"));
    v.push(String::from_str("why"));
    v.push(String::from_str("will"));
    v.push(String::from_str("with"));
    v.push(String::from_str("you"));
    v.push(String::from_str("your"));
    proof {
        assert(v.deep_view() =~= spec_stopwords_eng());
    }
    v
}

/// The curated stopword list for ISO 639-3 code `fra`.
pub open spec fn spec_stopwords_fra() -> Seq<Seq<char>> {
    seq![
        "au"@,
        "aux"@,
        "avec"@,
        "ce"@,
        "ces"@,
        "dans"@,
        "de"@,
        "des"@,
        "dessous"@,
        "dessus"@,
        "du"@,
        "elle"@,
        "en"@,
        "et"@,
        "eux"@,
        "ici"@,
        "il"@,
        "ils"@,
        "je"@,
        "la"@,
        "le"@,
        "les"@,
        "leur"@,
        "lui"@,
        "ma"@,
        "mais"@,
        "me"@,
        "mes"@,
        "moi"@,
        "mon"@,
        "ne"@,
        "nos"@,
        "notre"@,
        "nous"@,
        "on"@,
        "ou"@,
        "par"@,
        "pas"@,
        "pour"@,
        "qu"@,
        "que"@,
        "qui"@,
        "sa"@,
        "se"@,
        "ses"@,
        "son"@,
        "sur"@,
        "ta"@,
        "te"@,
        "tes"@,
        "toi"@,
        "ton"@,
        "tu"@,
        "un"@,
        "une"@,
        "vif"@,
        "vos"@,
        "votre"@,
        "vous"@,
        "y"@,
    ]
}

fn fra_list() -> (r: Vec<String>)
    ensures
        r.deep_view() == spec_stopwords_fra(),
{
    let mut v: Vec<String> = Vec::new();
    v.push(String::from_str("au"));
    v.push(String::from_str("aux"));
    v.push(String::from_str("avec"));
    v.push(String::from_str("ce"));
    v.push(String::from_str("ces"));
    v.push(String::from_str("dans"));
    v.push(String::from_str("de"));
    v.push(String::from_str("des"));
    v.push(String::from_str("dessous"));
    v.push(String::from_str("dessus"));
    v.push(String::from_str("du"));
    v.push(String::from_str("elle"));
    v.push(String::from_str("en"));
    v.push(String::from_str("et"));
    v.push(String::from_str("eux"));
    v.push(String::from_str("ici"));
    v.push(String::from_str("il"));
    v.push(String::from_str("ils"));
    v.push(String::from_str("je"));
    v.push(String::from_str("la"));
    v.push(String::from_str("le"));
    v.push(String::from_str("les"));
    v.push(String::from_str("leur"));
    v.push(String::from_str("lui"));
    v.push(String::from_str("ma"));
    v.push(String::from_str("mais"));
    v.push(String::from_str("me"));
    v.push(String::from_str("mes"));
    v.push(String::from_str("moi"));
    v.push(String::from_str("mon"));
    v.push(String::from_str("ne"));
    v.push(String::from_str("nos"));
    v.push(String::from_str("notre"));
    v.push(String::from_str("nous"));
    v.push(String::from_str("on"));
    v.push(String::from_str("ou"));
    v.push(String::from_str("par"));
    v.push(String::from_str("pas"));
    v.push(String::from_str("pour"));
    v.push(String::from_str("qu"));
    v.push(String::from_str("que"));
    v.push(String::from_str("qui"));
    v.push(String::from_str("sa"));
    v.push(String::from_str("se"));
    v.push(String::from_str("ses"));
    v.push(String::from_str("son"));
    v.push(String::from_str("sur"));
    v.push(String::from_str("ta"));
    v.push(String::from_str("te"));
    v.push(String::from_str("tes"));
    v.push(String::from_str("toi"));
    v.push(String::from_str("ton"));
    v.push(String::from_str("tu"));
    v.push(String::from_str("un"));
    v.push(String::from_str("une"));
    v.push(String::from_str("vif"));
    v.push(String::from_str("vos"));
    v.push(String::from_str("votre"));
    v.push(String::from_str("vous"));
    v.push(String::from_str("y"));
    proof {
        assert(v.deep_view() =~= spec_stopwords_fra());
    }
    v
}

/// The curated stopword list for ISO 639-3 code `cat`.
pub open spec fn spec_stopwords_cat() -> Seq<Seq<char>> {
    seq![
        "a"@,
        "adéu"@,
        "al"@,
        "als"@,
        "amb"@,
        "el"@,
        "els"@,
        "em"@,
        "en"@,
        "es"@,
        "hi"@,
        "ho"@,
        "i"@,
        "la"@,
        "les"@,
        "li"@,
        "molt"@,
        "no"@,
        "per"@,
        "si"@,
        "un"@,
        "una"@,
    ]
}

fn cat_list() -> (r: Vec<String>)
    ensures
        r.deep_view() == spec_stopwords_cat(),
{
    let mut v: Vec<String> = Vec::new();
    v.push(String::from_str("a"));
    v.push(String::from_str("adéu"));
    v.push(String::from_str("al"));
    v.push(String::from_str("als"));
    v.push(String::from_str("amb"));
    v.push(String::from_str("el"));
    v.push(String::from_str("els"));
    v.push(String::from_str("em"));
    v.push(String::from_str("en"));
    v.push(String::from_str("es"));
    v.push(String::from_str("hi"));
    v.push(String::from_str("ho"));
    v.push(String::from_str("i"));
    v.push(String::from_str("la"));
    v.push(String::from_str("les"));
    v.push(String::from_str("li"));
    v.push(String::from_str("molt"));
    v.push(String::from_str("no"));
    v.push(String::from_str("per"));
    v.push(String::from_str("si"));
    v.push(String::from_str("un"));
    v.push(String::from_str("una"));
    proof {
        assert(v.deep_view() =~= spec_stopwords_cat());
    }
    v
}

/// The curated stopword list for ISO 639-3 code `cmn`.
pub open spec fn spec_stopwords_cmn() -> Seq<Seq<char>> {
    seq![
        "的"@,
        "了"@,
        "和"@,
        "是"@,
        "在"@,
        "我"@,
        "有"@,
        "他"@,
        "这"@,
        "中"@,
        "大"@,
        "来"@,
        "上"@,
        "国"@,
        "我们"@,
        "你"@,
        "们"@,
        "到"@,
        "时"@,
        "就"@,
        "啊"@,
        "吗"@,
        "呢"@,
        "吧"@,
        "被"@,
        "让"@,
        "把"@,
        "个"@,
    ]
}

fn cmn_list() -> (r: Vec<String>)
    ensures
        r.deep_view() == spec_stopwords_cmn(),
{
    let mut v: Vec<String> = Vec::new();
    v.push(String::from_str("的"));
    v.push(String::from_str("了"));
    v.push(String::from_str("和"));
    v.push(String::from_str("是"));
    v.push(String::from_str("在"));
    v.push(String::from_str("我"));
    v.push(String::from_str("有"));
    v.push(String::from_str("他"));
    v.push(String::from_str("这"));
    v.push(String::from_str("中"));
    v.push(String::from_str("大"));
    v.push(String::from_str("来"));
    v.push(String::from_str("上"));
    v.push(String::from_str("国"));
    v.push(String::from_str("我们"));
    v.push(String::from_str("你"));
    v.push(String::from_str("们"));
    v.push(String::from_str("到"));
    v.push(String::from_str("时"));
    v.push(String::from_str("就"));
    v.push(String::from_str("啊"));
    v.push(String::from_str("吗"));
    v.push(String::from_str("呢"));
    v.push(String::from_str("吧"));
    v.push(String::from_str("被"));
    v.push(String::from_str("让"));
    v.push(String::from_str("把"));
    v.push(String::from_str("个"));
    proof {
        assert(v.deep_view() =~= spec_stopwords_cmn());
    }
    v
}

/// The curated stopword list for ISO 639-3 code `epo`.
pub open spec fn spec_stopwords_epo() -> Seq<Seq<char>> {
    seq![
        "la"@,
        "kaj"@,
        "de"@,
        "en"@,
        "al"@,
        "mi"@,
        "vi"@,
        "li"@,
        "ni"@,
        "ili"@,
        "estas"@,
        "ne"@,
        "sed"@,
        "por"@,
        "kun"@,
        "ke"@,
        "unu"@,
        "du"@,
    ]
}

fn epo_list() -> (r: Vec<String>)
    ensures
        r.deep_view() == spec_stopwords_epo(),
{
    let mut v: Vec<String> = Vec::new();
    v.push(String::from_str("la"));
    v.push(String::from_str("kaj"));
    v.push(String::from_str("de"));
    v.push(String::from_str("en"));
    v.push(String::from_str("al"));
    v.push(String::from_str("mi"));
    v.push(String::from_str("vi"));
    v.push(String::from_str("li"));
    v.push(String::from_str("ni"));
    v.push(String::from_str("ili"));
    v.push(String::from_str("estas"));
    v.push(String::from_str("ne"));
    v.push(String::from_str("sed"));
    v.push(String::from_str("por"));
    v.push(String::from_str("kun"));
    v.push(String::from_str("ke"));
    v.push(String::from_str("unu"));
    v.push(String::from_str("du"));
    proof {
        assert(v.deep_view() =~= spec_stopwords_epo());
    }
    v
}

/// The curated stopword list for ISO 639-3 code `rus`.
pub open spec fn spec_stopwords_rus() -> Seq<Seq<char>> {
    seq![
        "и"@,
        "в"@,
        "не"@,
        "на"@,
        "я"@,
        "что"@,
        "он"@,
        "с"@,
        "как"@,
        "это"@,
        "по"@,
        "но"@,
        "они"@,
        "мы"@,
        "вы"@,
        "она"@,
        "оно"@,
        "у"@,
        "же"@,
        "бы"@,
        "от"@,
        "за"@,
        "то"@,
        "все"@,
    ]
}

fn rus_list() -> (r: Vec<String>)
    ensures
        r.deep_view() == spec_stopwords_rus(),
{
    let mut v: Vec<String> = Vec::new();
    v.push(String::from_str("и"));
    v.push(String::from_str("в"));
    v.push(String::from_str("не"));
    v.push(String::from_str("на"));
    v.push(String::from_str("я"));
    v.push(String::from_str("что"));
    v.push(String::from_str("он"));
    v.push(String::from_str("с"));
    v.push(String::from_str("как"));
    v.push(String::from_str("это"));
    v.push(String::from_str("по"));
    v.push(String::from_str("но"));
    v.push(String::from_str("они"));
    v.push(String::from_str("мы"));
    v.push(String::from_str("вы"));
    v.push(String::from_str("она"));
    v.push(String::from_str("оно"));
    v.push(String::from_str("у"));
    v.push(String::from_str("же"));
    v.push(String::from_str("бы"));
    v.push(String::from_str("от"));
    v.push(String::from_str("за"));
    v.push(String::from_str("то"));
    v.push(String::from_str("все"));
    proof {
        assert(v.deep_view() =~= spec_stopwords_rus());
    }
    v
}

/// The curated stopword list for ISO 639-3 code `spa`.
pub open spec fn spec_stopwords_spa() -> Seq<Seq<char>> {
    seq![
        "el"@,
        "la"@,
        "los"@,
        "las"@,
        "un"@,
        "una"@,
        "unos"@,
        "unas"@,
        "y"@,
        "o"@,
        "de"@,
        "del"@,
        "en"@,
        "que"@,
        "se"@,
        "no"@,
        "con"@,
        "por"@,
        "para"@,
        "su"@,
        "al"@,
        "lo"@,
        "como"@,
        "pero"@,
        "sus"@,
        "le"@,
        "ya"@,
        "este"@,
    ]
}

fn spa_list() -> (r: Vec<String>)
    ensures
        r.deep_view() == spec_stopwords_spa(),
{
    let mut v: Vec<String> = Vec::new();
    v.push(String::from_str("el"));
    v.push(String::from_str("la"));
    v.push(String::from_str("los"));
    v.push(String::from_str("las"));
    v.push(String::from_str("un"));
    v.push(String::from_str("una"));
    v.push(String::from_str("unos"));
    v.push(String::from_str("unas"));
    v.push(String::from_str("y"));
    v.push(String::from_str("o"));
    v.push(String::from_str("de"));
    v.push(String::from_str("del"));
    v.push(String::from_str("en"));
    v.push(String::from_str("que"));
    v.push(String::from_str("se"));
    v.push(String::from_str("no"));
    v.push(String::from_str("con"));
    v.push(String::from_str("por"));
    v.push(String::from_str("para"));
    v.push(String::from_str("su"));
    v.push(String::from_str("al"));
    v.push(String::from_str("lo"));
    v.push(String::from_str("como"));
    v.push(String::from_str("pero"));
    v.push(String::from_str("sus"));
    v.push(String::from_str("le"));
    v.push(String::from_str("ya"));
    v.push(String::from_str("este"));
    proof {
        assert(v.deep_view() =~= spec_stopwords_spa());
    }
    v
}

/// The curated stopword list for ISO 639-3 code `por`.
pub open spec fn spec_stopwords_por() -> Seq<Seq<char>> {
    seq![
        "o"@,
        "a"@,
        "os"@,
        "as"@,
        "um"@,
        "uma"@,
        "e"@,
        "de"@,
        "do"@,
        "da"@,
        "dos"@,
        "das"@,
        "em"@,
        "no"@,
        "na"@,
        "nos"@,
        "nas"@,
        "que"@,
        "se"@,
        "com"@,
        "por"@,
        "para"@,
        "seu"@,
        "sua"@,
        "ao"@,
        "mas"@,
        "como"@,
        "ou"@,
    ]
}

fn por_list() -> (r: Vec<String>)
    ensures
        r.deep_view() == spec_stopwords_por(),
{
    let mut v: Vec<String> = Vec::new();
    v.push(String::from_str("o"));
    v.push(String::from_str("a"));
    v.push(String::from_str("os"));
    v.push(String::from_str("as"));
    v.push(String::from_str("um"));
    v.push(String::from_str("uma"));
    v.push(String::from_str("e"));
    v.push(String::from_str("de"));
    v.push(String::from_str("do"));
    v.push(String::from_str("da"));
    v.push(String::from_str("dos"));
    v.push(String::from_str("das"));
    v.push(String::from_str("em"));
    v.push(String::from_str("no"));
    v.push(String::from_str("na"));
    v.push(String::from_str("nos"));
    v.push(String::from_str("nas"));
    v.push(String::from_str("que"));
    v.push(String::from_str("se"));
    v.push(String::from_str("com"));
    v.push(String::from_str("por"));
    v.push(String::from_str("para"));
    v.push(String::from_str("seu"));
    v.push(String::from_str("sua"));
    v.push(String::from_str("ao"));
    v.push(String::from_str("mas"));
    v.push(String::from_str("como"));
    v.push(String::from_str("ou"));
    proof {
        assert(v.deep_view() =~= spec_stopwords_por());
    }
    v
}

/// The curated stopword list for ISO 639-3 code `ita`.
pub open spec fn spec_stopwords_ita() -> Seq<Seq<char>> {
    seq![
        "il"@,
        "lo"@,
        "la"@,
        "i"@,
        "gli"@,
        "le"@,
        "un"@,
        "uno"@,
        "una"@,
        "e"@,
        "di"@,
        "del"@,
        "della"@,
        "in"@,
        "che"@,
        "si"@,
        "non"@,
        "con"@,
        "per"@,
        "su"@,
        "al"@,
        "come"@,
        "ma"@,
        "o"@,
        "anche"@,
        "questo"@,
        "questa"@,
    ]
}

fn ita_list() -> (r: Vec<String>)
    ensures
        r.deep_view() == spec_stopwords_ita(),
{
    let mut v: Vec<String> = Vec::new();
    v.push(String::from_str("il"));
    v.push(String::from_str("lo"));
    v.push(String::from_str("la"));
    v.push(String::from_str("i"));
    v.push(String::from_str("gli"));
    v.push(String::from_str("le"));
    v.push(String::from_str("un"));
    v.push(String::from_str("uno"));
    v.push(String::from_str("una"));
    v.push(String::from_str("e"));
    v.push(String::from_str("di"));
    v.push(String::from_str("del"));
    v.push(String::from_str("della"));
    v.push(String::from_str("in"));
    v.push(String::from_str("che"));
    v.push(String::from_str("si"));
    v.push(String::from_str("non"));
    v.push(String::from_str("con"));
    v.push(String::from_str("per"));
    v.push(String::from_str("su"));
    v.push(String::from_str("al"));
    v.push(String::from_str("come"));
    v.push(String::from_str("ma"));
    v.push(String::from_str("o"));
    v.push(String::from_str("anche"));
    v.push(String::from_str("questo"));
    v.push(String::from_str("questa"));
    proof {
        assert(v.deep_view() =~= spec_stopwords_ita());
    }
    v
}

/// The curated stopword list for ISO 639-3 code `ben`.
pub open spec fn spec_stopwords_ben() -> Seq<Seq<char>> {
    seq![
        "এবং"@,
        "ও"@,
        "এই"@,
        "যে"@,
        "না"@,
        "থেকে"@,
        "করে"@,
        "একটি"@,
        "তার"@,
        "সে"@,
        "আমি"@,
        "আমরা"@,
        "তুমি"@,
        "কি"@,
        "এক"@,
    ]
}

fn ben_list() -> (r: Vec<String>)
    ensures
        r.deep_view() == spec_stopwords_ben(),
{
    let mut v: Vec<String> = Vec::new();
    v.push(String::from_str("এবং"));
    v.push(String::from_str("ও"));
    v.push(String::from_str("এই"));
    v.push(String::from_str("যে"));
    v.push(String::from_str("না"));
    v.push(String::from_str("থেকে"));
    v.push(String::from_str("করে"));
    v.push(String::from_str("একটি"));
    v.push(String::from_str("তার"));
    v.push(String::from_str("সে"));
    v.push(String::from_str("আমি"));
    v.push(String::from_str("আমরা"));
    v.push(String::from_str("তুমি"));
    v.push(String::from_str("কি"));
    v.push(String::from_str("এক"));
    proof {
        assert(v.deep_view() =~= spec_stopwords_ben());
    }
    v
}

/// The curated stopword list for ISO 639-3 code `ukr`.
pub open spec fn spec_stopwords_ukr() -> Seq<Seq<char>> {
    seq![
        "і"@,
        "в"@,
        "не"@,
        "на"@,
        "я"@,
        "що"@,
        "він"@,
        "з"@,
        "як"@,
        "це"@,
        "по"@,
        "але"@,
        "вони"@,
        "ми"@,
        "ви"@,
        "вона"@,
        "воно"@,
        "у"@,
        "же"@,
        "б"@,
        "від"@,
        "за"@,
        "те"@,
        "всі"@,
    ]
}

fn ukr_list() -> (r: Vec<String>)
    ensures
        r.deep_view() == spec_stopwords_ukr(),
{
    let mut v: Vec<String> = Vec::new();
    v.push(String::from_str("і"));
    v.push(String::from_str("в"));
    v.push(String::from_str("не"));
    v.push(String::from_str("на"));
    v.push(String::from_str("я"));
    v.push(String::from_str("що"));
    v.push(String::from_str("він"));
    v.push(String::from_str("з"));
    v.push(String::from_str("як"));
    v.push(String::from_str("це"));
    v.push(String::from_str("по"));
    v.push(String::from_str("але"));
    v.push(String::from_str("вони"));
    v.push(String::from_str("ми"));
    v.push(String::from_str("ви"));
    v.push(String::from_str("вона"));
    v.push(String::from_str("воно"));
    v.push(String::from_str("у"));
    v.push(String::from_str("же"));
    v.push(String::from_str("б"));
    v.push(String::from_str("від"));
    v.push(String::from_str("за"));
    v.push(String::from_str("те"));
    v.push(String::from_str("всі"));
    proof {
        assert(v.deep_view() =~= spec_stopwords_ukr());
    }
    v
}

/// The curated stopword list for ISO 639-3 code `ara`.
pub open spec fn spec_stopwords_ara() -> Seq<Seq<char>> {
    seq![
        "في"@,
        "من"@,
        "على"@,
        "إلى"@,
        "أن"@,
        "هذا"@,
        "هذه"@,
        "التي"@,
        "الذي"@,
        "ما"@,
        "لا"@,
        "عن"@,
        "مع"@,
        "هو"@,
        "هي"@,
        "كان"@,
        "قد"@,
        "لم"@,
        "أو"@,
        "ثم"@,
    ]
}

fn ara_list() -> (r: Vec<String>)
    ensures
        r.deep_view() == spec_stopwords_ara(),
{
    let mut v: Vec<String> = Vec::new();
    v.push(String::from_str("في"));
    v.push(String::from_str("من"));
    v.push(String::from_str("على"));
    v.push(String::from_str("إلى"));
    v.push(String::from_str("أن"));
    v.push(String::from_str("هذا"));
    v.push(String::from_str("هذه"));
    v.push(String::from_str("التي"));
    v.push(String::from_str("الذي"));
    v.push(String::from_str("ما"));
    v.push(String::from_str("لا"));
    v.push(String::from_str("عن"));
    v.push(String::from_str("مع"));
    v.push(String::from_str("هو"));
    v.push(String::from_str("هي"));
    v.push(String::from_str("كان"));
    v.push(String::from_str("قد"));
    v.push(String::from_str("لم"));
    v.push(String::from_str("أو"));
    v.push(String::from_str("ثم"));
    proof {
        assert(v.deep_view() =~= spec_stopwords_ara());
    }
    v
}

/// The curated stopword list for ISO 639-3 code `hin`.
pub open spec fn spec_stopwords_hin() -> Seq<Seq<char>> {
    seq![
        "और"@,
        "का"@,
        "की"@,
        "के"@,
        "में"@,
        "है"@,
        "हैं"@,
        "को"@,
        "से"@,
        "पर"@,
        "यह"@,
        "वह"@,
        "ने"@,
        "एक"@,
        "था"@,
        "थी"@,
        "हो"@,
        "नहीं"@,
        "तो"@,
        "ही"@,
    ]
}

fn hin_list() -> (r: Vec<String>)
    ensures
        r.deep_view() == spec_stopwords_hin(),
{
    let mut v: Vec<String> = Vec::new();
    v.push(String::from_str("और"));
    v.push(String::from_str("का"));
    v.push(String::from_str("की"));
    v.push(String::from_str("के"));
    v.push(String::from_str("में"));
    v.push(String::from_str("है"));
    v.push(String::from_str("हैं"));
    v.push(String::from_str("को"));
    v.push(String::from_str("से"));
    v.push(String::from_str("पर"));
    v.push(String::from_str("यह"));
    v.push(String::from_str("वह"));
    v.push(String::from_str("ने"));
    v.push(String::from_str("एक"));
    v.push(String::from_str("था"));
    v.push(String::from_str("थी"));
    v.push(String::from_str("हो"));
    v.push(String::from_str("नहीं"));
    v.push(String::from_str("तो"));
    v.push(String::from_str("ही"));
    proof {
        assert(v.deep_view() =~= spec_stopwords_hin());
    }
    v
}

/// The curated stopword list for ISO 639-3 code `jpn`.
pub open spec fn spec_stopwords_jpn() -> Seq<Seq<char>> {
    seq![
        "の"@,
        "に"@,
        "は"@,
        "を"@,
        "た"@,
        "が"@,
        "で"@,
        "て"@,
        "と"@,
        "し"@,
        "れ"@,
        "さ"@,
        "ある"@,
        "いる"@,
        "も"@,
        "する"@,
        "から"@,
        "な"@,
        "こと"@,
        "として"@,
    ]
}

fn jpn_list() -> (r: Vec<String>)
    ensures
        r.deep_view() == spec_stopwords_jpn(),
{
    let mut v: Vec<String> = Vec::new();
    v.push(String::from_str("の"));
    v.push(String::from_str("に"));
    v.push(String::from_str("は"));
    v.push(String::from_str("を"));
    v.push(String::from_str("た"));
    v.push(String::from_str("が"));
    v.push(String::from_str("で"));
    v.push(String::from_str("て"));
    v.push(String::from_str("と"));
    v.push(String::from_str("し"));
    v.push(String::from_str("れ"));
    v.push(String::from_str("さ"));
    v.push(String::from_str("ある"));
    v.push(String::from_str("いる"));
    v.push(String::from_str("も"));
    v.push(String::from_str("する"));
    v.push(String::from_str("から"));
    v.push(String::from_str("な"));
    v.push(String::from_str("こと"));
    v.push(String::from_str("として"));
    proof {
        assert(v.deep_view() =~= spec_stopwords_jpn());
    }
    v
}

/// The curated stopword list for ISO 639-3 code `heb`.
pub open spec fn spec_stopwords_heb() -> Seq<Seq<char>> {
    seq![
        "של"@,
        "את"@,
        "על"@,
        "הוא"@,
        "היא"@,
        "זה"@,
        "עם"@,
        "לא"@,
        "אם"@,
        "כל"@,
        "גם"@,
        "כי"@,
        "מה"@,
        "אני"@,
        "יש"@,
        "אל"@,
        "או"@,
    ]
}

fn heb_list() -> (r: Vec<String>)
    ensures
        r.deep_view() == spec_stopwords_heb(),
{
    let mut v: Vec<String> = Vec::new();
    v.push(String::from_str("של"));
    v.push(String::from_str("את"));
    v.push(String::from_str("על"));
    v.push(String::from_str("הוא"));
    v.push(String::from_str("היא"));
    v.push(String::from_str("זה"));
    v.push(String::from_str("עם"));
    v.push(String::from_str("לא"));
    v.push(String::from_str("אם"));
    v.push(String::from_str("כל"));
    v.push(String::from_str("גם"));
    v.push(String::from_str("כי"));
    v.push(String::from_str("מה"));
    v.push(String::from_str("אני"));
    v.push(String::from_str("יש"));
    v.push(String::from_str("אל"));
    v.push(String::from_str("או"));
    proof {
        assert(v.deep_view() =~= spec_stopwords_heb());
    }
    v
}

/// The curated stopword list for ISO 639-3 code `pol`.
pub open spec fn spec_stopwords_pol() -> Seq<Seq<char>> {
    seq![
        "i"@,
        "w"@,
        "nie"@,
        "na"@,
        "ja"@,
        "że"@,
        "on"@,
        "z"@,
        "jak"@,
        "to"@,
        "po"@,
        "ale"@,
        "oni"@,
        "my"@,
        "wy"@,
        "ona"@,
        "ono"@,
        "u"@,
        "się"@,
        "od"@,
        "za"@,
        "te"@,
        "jest"@,
        "są"@,
    ]
}

fn pol_list() -> (r: Vec<String>)
    ensures
        r.deep_view() == spec_stopwords_pol(),
{
    let mut v: Vec<String> = Vec::new();
    v.push(String::from_str("i"));
    v.push(String::from_str("w"));
    v.push(String::from_str("nie"));
    v.push(String::from_str("na"));
    v.push(String::from_str("ja"));
    v.push(String::from_str("że"));
    v.push(String::from_str("on"));
    v.push(String::from_str("z"));
    v.push(String::from_str("jak"));
    v.push(String::from_str("to"));
    v.push(String::from_str("po"));
    v.push(String::from_str("ale"));
    v.push(String::from_str("oni"));
    v.push(String::from_str("my"));
    v.push(String::from_str("wy"));
    v.push(String::from_str("ona"));
    v.push(String::from_str("ono"));
    v.push(String::from_str("u"));
    v.push(String::from_str("się"));
    v.push(String::from_str("od"));
    v.push(String::from_str("za"));
    v.push(String::from_str("te"));
    v.push(String::from_str("jest"));
    v.push(String::from_str("są"));
    proof {
        assert(v.deep_view() =~= spec_stopwords_pol());
    }
    v
}

/// The curated stopword list for ISO 639-3 code `kor`.
pub open spec fn spec_stopwords_kor() -> Seq<Seq<char>> {
    seq![
        "이"@,
        "그"@,
        "저"@,
        "것"@,
        "수"@,
        "를"@,
        "을"@,
        "은"@,
        "는"@,
        "가"@,
        "에"@,
        "의"@,
        "와"@,
        "과"@,
        "하다"@,
        "있다"@,
        "없다"@,
        "들"@,
        "도"@,
        "만"@,
    ]
}

fn kor_list() -> (r: Vec<String>)
    ensures
        r.deep_view() == spec_stopwords_kor(),
{
    let mut v: Vec<String> = Vec::new();
    v.push(String::from_str("이"));
    v.push(String::from_str("그"));
    v.push(String::from_str("저"));
    v.push(String::from_str("것"));
    v.push(String::from_str("수"));
    v.push(String::from_str("를"));
    v.push(String::from_str("을"));
    v.push(String::from_str("은"));
    v.push(String::from_str("는"));
    v.push(String::from_str("가"));
    v.push(String::from_str("에"));
    v.push(String::from_str("의"));
    v.push(String::from_str("와"));
    v.push(String::from_str("과"));
    v.push(String::from_str("하다"));
    v.push(String::from_str("있다"));
    v.push(String::from_str("없다"));
    v.push(String::from_str("들"));
    v.push(String::from_str("도"));
    v.push(String::from_str("만"));
    proof {
        assert(v.deep_view() =~= spec_stopwords_kor());
    }
    v
}

/// The curated stopword list for ISO 639-3 code `dan`.
pub open spec fn spec_stopwords_dan() -> Seq<Seq<char>> {
    seq![
        "og"@,
        "i"@,
        "jeg"@,
        "det"@,
        "at"@,
        "en"@,
        "den"@,
        "til"@,
        "er"@,
        "som"@,
        "på"@,
        "de"@,
        "med"@,
        "han"@,
        "af"@,
        "for"@,
        "ikke"@,
        "der"@,
        "var"@,
        "mig"@,
        "et"@,
        "men"@,
        "hun"@,
        "nu"@,
        "har"@,
    ]
}

fn dan_list() -> (r: Vec<String>)
    ensures
        r.deep_view() == spec_stopwords_dan(),
{
    let mut v: Vec<String> = Vec::new();
    v.push(String::from_str("og"));
    v.push(String::from_str("i"));
    v.push(String::from_str("jeg"));
    v.push(String::from_str("det"));
    v.push(String::from_str("at"));
    v.push(String::from_str("en"));
    v.push(String::from_str("den"));
    v.push(String::from_str("til"));
    v.push(String::from_str("er"));
    v.push(String::from_str("som"));
    v.push(String::from_str("på"));
    v.push(String::from_str("de"));
    v.push(String::from_str("med"));
    v.push(String::from_str("han"));
    v.push(String::from_str("af"));
    v.push(String::from_str("for"));
    v.push(String::from_str("ikke"));
    v.push(String::from_str("der"));
    v.push(String::from_str("var"));
    v.push(String::from_str("mig"));
    v.push(String::from_str("et"));
    v.push(String::from_str("men"));
    v.push(String::from_str("hun"));
    v.push(String::from_str("nu"));
    v.push(String::from_str("har"));
    proof {
        assert(v.deep_view() =~= spec_stopwords_dan());
    }
    v
}

/// The curated stopword list for ISO 639-3 code `swe`.
pub open spec fn spec_stopwords_swe() -> Seq<Seq<char>> {
    seq![
        "och"@,
        "det"@,
        "att"@,
        "i"@,
        "en"@,
        "jag"@,
        "hon"@,
        "som"@,
        "han"@,
        "på"@,
        "den"@,
        "med"@,
        "var"@,
        "sig"@,
        "för"@,
        "så"@,
        "till"@,
        "är"@,
        "men"@,
        "ett"@,
        "om"@,
        "de"@,
        "av"@,
        "du"@,
        "inte"@,
        "har"@,
    ]
}

fn swe_list() -> (r: Vec<String>)
    ensures
        r.deep_view() == spec_stopwords_swe(),
{
    let mut v: Vec<String> = Vec::new();
    v.push(String::from_str("och"));
    v.push(String::from_str("det"));
    v.push(String::from_str("att"));
    v.push(String::from_str("i"));
    v.push(String::from_str("en"));
    v.push(String::from_str("jag"));
    v.push(String::from_str("hon"));
    v.push(String::from_str("som"));
    v.push(String::from_str("han"));
    v.push(String::from_str("på"));
    v.push(String::from_str("den"));
    v.push(String::from_str("med"));
    v.push(String::from_str("var"));
    v.push(String::from_str("sig"));
    v.push(String::from_str("för"));
    v.push(String::from_str("så"));
    v.push(String::from_str("till"));
    v.push(String::from_str("är"));
    v.push(String::from_str("men"));
    v.push(String::from_str("ett"));
    v.push(String::from_str("om"));
    v.push(String::from_str("de"));
    v.push(String::from_str("av"));
    v.push(String::from_str("du"));
    v.push(String::from_str("inte"));
    v.push(String::from_str("har"));
    proof {
        assert(v.deep_view() =~= spec_stopwords_swe());
    }
    v
}

/// The curated stopword list for ISO 639-3 code `fin`.
pub open spec fn spec_stopwords_fin() -> Seq<Seq<char>> {
    seq![
        "ja"@,
        "on"@,
        "ei"@,
        "se"@,
        "että"@,
        "hän"@,
        "oli"@,
        "en"@,
        "me"@,
        "te"@,
        "he"@,
        "tämä"@,
        "tuo"@,
        "joka"@,
        "kun"@,
        "niin"@,
        "mutta"@,
        "myös"@,
        "ole"@,
        "sen"@,
    ]
}

fn fin_list() -> (r: Vec<String>)
    ensures
        r.deep_view() == spec_stopwords_fin(),
{
    let mut v: Vec<String> = Vec::new();
    v.push(String::from_str("ja"));
    v.push(String::from_str("on"));
    v.push(String::from_str("ei"));
    v.push(String::from_str("se"));
    v.push(String::from_str("että"));
    v.push(String::from_str("hän"));
    v.push(String::from_str("oli"));
    v.push(String::from_str("en"));
    v.push(String::from_str("me"));
    v.push(String::from_str("te"));
    v.push(String::from_str("he"));
    v.push(String::from_str("tämä"));
    v.push(String::from_str("tuo"));
    v.push(String::from_str("joka"));
    v.push(String::from_str("kun"));
    v.push(String::from_str("niin"));
    v.push(String::from_str("mutta"));
    v.push(String::from_str("myös"));
    v.push(String::from_str("ole"));
    v.push(String::from_str("sen"));
    proof {
        assert(v.deep_view() =~= spec_stopwords_fin());
    }
    v
}

/// The curated stopword list for ISO 639-3 code `tur`.
pub open spec fn spec_stopwords_tur() -> Seq<Seq<char>> {
    seq![
        "ve"@,
        "bir"@,
        "bu"@,
        "da"@,
        "de"@,
        "için"@,
        "ile"@,
        "mi"@,
        "ne"@,
        "o"@,
        "ama"@,
        "ki"@,
        "gibi"@,
        "daha"@,
        "çok"@,
        "en"@,
        "her"@,
        "ben"@,
        "sen"@,
        "biz"@,
        "siz"@,
        "onlar"@,
        "var"@,
        "yok"@,
    ]
}

fn tur_list() -> (r: Vec<String>)
    ensures
        r.deep_view() == spec_stopwords_tur(),
{
    let mut v: Vec<String> = Vec::new();
    v.push(String::from_str("ve"));
    v.push(String::from_str("bir"));
    v.push(String::from_str("bu"));
    v.push(String::from_str("da"));
    v.push(String::from_str("de"));
    v.push(String::from_str("için"));
    v.push(String::from_str("ile"));
    v.push(String::from_str("mi"));
    v.push(String::from_str("ne"));
    v.push(String::from_str("o"));
    v.push(String::from_str("ama"));
    v.push(String::from_str("ki"));
    v.push(String::from_str("gibi"));
    v.push(String::from_str("daha"));
    v.push(String::from_str("çok"));
    v.push(String::from_str("en"));
    v.push(String::from_str("her"));
    v.push(String::from_str("ben"));
    v.push(String::from_str("sen"));
    v.push(String::from_str("biz"));
    v.push(String::from_str("siz"));
    v.push(String::from_str("onlar"));
    v.push(String::from_str("var"));
    v.push(String::from_str("yok"));
    proof {
        assert(v.deep_view() =~= spec_stopwords_tur());
    }
    v
}

/// The stopword list curated for a language. A language without a curated
/// list of its own falls back, deliberately and documented here, to the
/// English list rather than silently disabling filtering.
pub open spec fn spec_stopwords(lang: Language) -> Seq<Seq<char>> {
    match lang {
        Language::Esperanto => spec_stopwords_epo(),
        Language::English => spec_stopwords_eng(),
        Language::Russian => spec_stopwords_rus(),
        Language::Chinese => spec_stopwords_cmn(),
        Language::Spanish => spec_stopwords_spa(),
        Language::Portuguese => spec_stopwords_por(),
        Language::Italian => spec_stopwords_ita(),
        Language::Bengali => spec_stopwords_ben(),
        Language::French => spec_stopwords_fra(),
        Language::Ukrainian => spec_stopwords_ukr(),
        Language::Arabic => spec_stopwords_ara(),
        Language::Hindi => spec_stopwords_hin(),
        Language::Japanese => spec_stopwords_jpn(),
        Language::Hebrew => spec_stopwords_heb(),
        Language::Polish => spec_stopwords_pol(),
        Language::Korean => spec_stopwords_kor(),
        Language::Danish => spec_stopwords_dan(),
        Language::Swedish => spec_stopwords_swe(),
        Language::Finnish => spec_stopwords_fin(),
        Language::Turkish => spec_stopwords_tur(),
        Language::Catalan => spec_stopwords_cat(),
        _ => spec_stopwords_eng(),
    }
}

/// Whether a language has a curated stopword list of its own. For every
/// other language `spec_stopwords` applies the documented English fallback.
pub open spec fn spec_has_curated_stopwords(lang: Language) -> bool {
    match lang {
        Language::Esperanto => true,
        Language::English => true,
        Language::Russian => true,
        Language::Chinese => true,
        Language::Spanish => true,
        Language::Portuguese => true,
        Language::Italian => true,
        Language::Bengali => true,
        Language::French => true,
        Language::Ukrainian => true,
        Language::Arabic => true,
        Language::Hindi => true,
        Language::Japanese => true,
        Language::Hebrew => true,
        Language::Polish => true,
        Language::Korean => true,
        Language::Danish => true,
        Language::Swedish => true,
        Language::Finnish => true,
        Language::Turkish => true,
        Language::Catalan => true,
        _ => false,
    }
}

/// Whether a token counts as a stopword: never without a known language,
/// otherwise exactly when the language's curated list holds the token.
pub open spec fn spec_is_stopword(word: Seq<char>, locale: Option<Language>) -> bool {
    match locale {
        Some(l) => spec_stopwords(l).contains(word),
        None => false,
    }
}

pub(crate) fn contains_word(list: &Vec<String>, word: &str) -> (r: bool)
    ensures
        r == list.deep_view().contains(word@),
{
    let w = word.to_owned();
    let mut i: usize = 0;
    while i < list.len()
        invariant
            i <= list@.len(),
            w@ == word@,
            forall|j: int| 0 <= j < i ==> list@[j]@ != word@,
        decreases list@.len() - i,
    {
        if list[i] == w {
            proof {
                assert(list.deep_view()[i as int] == word@);
            }
            return true;
        }
        i += 1;
    }
    proof {
        assert(forall|j: int| 0 <= j < list.deep_view().len() ==> list.deep_view()[j] != word@);
    }
    false
}

pub struct LexerStopWord;

impl LexerStopWord {
    /// Reports whether a token is a stopword for the given locale. Without a
    /// known locale no token is a stopword: there is no filtering without a
    /// known language.
    pub fn is(word: &str, locale: Option<Language>) -> (r: bool)
        ensures
            r == spec_is_stopword(word@, locale),
    {
        match locale {
            Some(l) => {
                let list = Self::lang_stopwords(l);
                contains_word(&list, word)
            },
            None => false,
        }
    }

    /// Reports whether filtering for this language uses a list curated for
    /// it, rather than the explicit English fallback list. The fallback is a
    /// deliberate, observable choice: filtering is never silently disabled
    /// for a known language.
    pub fn has_curated_stopwords(lang: Language) -> (r: bool)
        ensures
            r == spec_has_curated_stopwords(lang),
    {
        match lang {
            Language::Esperanto => true,
            Language::English => true,
            Language::Russian => true,
            Language::Chinese => true,
            Language::Spanish => true,
            Language::Portuguese => true,
            Language::Italian => true,
            Language::Bengali => true,
            Language::French => true,
            Language::Ukrainian => true,
            Language::Arabic => true,
            Language::Hindi => true,
            Language::Japanese => true,
            Language::Hebrew => true,
            Language::Polish => true,
            Language::Korean => true,
            Language::Danish => true,
            Language::Swedish => true,
            Language::Finnish => true,
            Language::Turkish => true,
            Language::Catalan => true,
            _ => false,
        }
    }

    pub(crate) fn lang_stopwords(lang: Language) -> (r: Vec<String>)
        ensures
            r.deep_view() == spec_stopwords(lang),
    {
        match lang {
            Language::Esperanto => epo_list(),
            Language::English => eng_list(),
            Language::Russian => rus_list(),
            Language::Chinese => cmn_list(),
            Language::Spanish => spa_list(),
            Language::Portuguese => por_list(),
            Language::Italian => ita_list(),
            Language::Bengali => ben_list(),
            Language::French => fra_list(),
            Language::Ukrainian => ukr_list(),
            Language::Arabic => ara_list(),
            Language::Hindi => hin_list(),
            Language::Japanese => jpn_list(),
            Language::Hebrew => heb_list(),
            Language::Polish => pol_list(),
            Language::Korean => kor_list(),
            Language::Danish => dan_list(),
            Language::Swedish => swe_list(),
            Language::Finnish => fin_list(),
            Language::Turkish => tur_list(),
            Language::Catalan => cat_list(),
            _ => eng_list(),
        }
    }
}

} // verus!
