use vstd::prelude::*;
use vstd::string::*;
use crate::source::{Direction, Field};

verus! {

/// The model every translation request names.
pub const MODEL: &'static str = "openai/gpt-4o-mini";

/// The reply length every translation request allows.
pub const MAX_TOKENS: u16 = 128;

/// What is sent upstream for one translation: a system instruction, a few
/// example exchanges, the text to translate, and the fixed model settings
/// (sampling temperature is always zero).
pub struct TranslationRequest {
    pub system: String,
    pub history: Vec<(String, String)>,
    pub prompt: String,
    pub model: String,
    pub max_tokens: u16,
}

/// A request as plain sequences.
pub struct RequestView {
    pub system: Seq<char>,
    pub history: Seq<(Seq<char>, Seq<char>)>,
    pub prompt: Seq<char>,
    pub model: Seq<char>,
    pub max_tokens: u16,
}

pub open spec fn pairs_view(h: Seq<(String, String)>) -> Seq<(Seq<char>, Seq<char>)> {
    h.map_values(|p: (String, String)| (p.0@, p.1@))
}

impl View for TranslationRequest {
    type V = RequestView;

    open spec fn view(&self) -> RequestView {
        RequestView {
            system: self.system@,
            history: pairs_view(self.history@),
            prompt: self.prompt@,
            model: self.model@,
            max_tokens: self.max_tokens,
        }
    }
}

/// The request for `prompt` under the given instruction and examples.
pub open spec fn request_spec(
    system: Seq<char>,
    history: Seq<(Seq<char>, Seq<char>)>,
    prompt: Seq<char>,
) -> RequestView {
    RequestView { system, history, prompt, model: MODEL@, max_tokens: MAX_TOKENS }
}

/// Builds the request that asks the model to answer `prompt` under `system`,
/// after the example exchanges of `history`.
pub fn query_openai(system: String, history: Vec<(String, String)>, prompt: String) -> (r:
    TranslationRequest)
    ensures
        r@ == request_spec(system@, pairs_view(history@), prompt@),
{
    TranslationRequest {
        system,
        history,
        prompt,
        model: String::from_str(MODEL),
        max_tokens: MAX_TOKENS,
    }
}

/// The example sentences, by language; the third is deliberately empty.
pub open spec fn example_spec(field: Field, i: int) -> Seq<char> {
    match field {
        Field::Chinese => if i == 0 {
            "你需要哪本书？"@
        } else if i == 1 {
            "这只苹果有半公斤。"@
        } else if i == 3 {
            "她正在打电话。"@
        } else {
            ""@
        },
        Field::English => if i == 0 {
            "Which book do you need?"@
        } else if i == 1 {
            "This apple weighs half a kilogram."@
        } else if i == 3 {
            "She is making a phone call."@
        } else {
            ""@
        },
        Field::Pinyin => if i == 0 {
            "Nǐ xūyào nǎ běn shū?"@
        } else if i == 1 {
            "Zhè zhī píngguǒ yǒu bàn gōngjīn."@
        } else if i == 3 {
            "Tā zhèngzài dǎ diànhuà."@
        } else {
            ""@
        },
    }
}

/// How many example exchanges each direction carries.
pub const EXAMPLE_COUNT: usize = 4;

fn example(field: Field, i: usize) -> (r: &'static str)
    ensures
        r@ == example_spec(field, i as int),
{
    match field {
        Field::Chinese => if i == 0 {
            "你需要哪本书？"
        } else if i == 1 {
            "这只苹果有半公斤。"
        } else if i == 3 {
            "她正在打电话。"
        } else {
            ""
        },
        Field::English => if i == 0 {
            "Which book do you need?"
        } else if i == 1 {
            "This apple weighs half a kilogram."
        } else if i == 3 {
            "She is making a phone call."
        } else {
            ""
        },
        Field::Pinyin => if i == 0 {
            "Nǐ xūyào nǎ běn shū?"
        } else if i == 1 {
            "Zhè zhī píngguǒ yǒu bàn gōngjīn."
        } else if i == 3 {
            "Tā zhèngzài dǎ diànhuà."
        } else {
            ""
        },
    }
}

/// The example exchanges for a direction: each example sentence in the
/// language read, answered by the same sentence in the language written.
pub open spec fn few_shot_spec(d: Direction) -> Seq<(Seq<char>, Seq<char>)> {
    Seq::new(
        EXAMPLE_COUNT as nat,
        |i: int| (example_spec(d.spec_origin(), i), example_spec(d.spec_target(), i)),
    )
}

/// The instruction that tells the model to translate in a direction and do
/// nothing else.
pub open spec fn system_prompt_spec(d: Direction) -> Seq<char> {
    match d {
        Direction::ChineseToEnglish =>
            "You are a Chinese to English translation system. You will respond only with translations."@,
        Direction::EnglishToChinese =>
            "You are an English to Chinese translation system. You will respond only with translations."@,
        Direction::ChineseToPinyin =>
            "You are a Chinese to Pinyin translation system. You will respond only with Pinyin translations."@,
        Direction::PinyinToChinese =>
            "You are a Pinyin to Chinese translation system. You will respond only with Chinese translations."@,
    }
}

/// The request that translates `text` in direction `d`.
pub open spec fn translation_spec(d: Direction, text: Seq<char>) -> RequestView {
    request_spec(system_prompt_spec(d), few_shot_spec(d), text)
}

impl Direction {
    pub fn system_prompt(self) -> (r: &'static str)
        ensures
            r@ == system_prompt_spec(self),
    {
        match self {
            Direction::ChineseToEnglish =>
                "You are a Chinese to English translation system. You will respond only with translations.",
            Direction::EnglishToChinese =>
                "You are an English to Chinese translation system. You will respond only with translations.",
            Direction::ChineseToPinyin =>
                "You are a Chinese to Pinyin translation system. You will respond only with Pinyin translations.",
            Direction::PinyinToChinese =>
                "You are a Pinyin to Chinese translation system. You will respond only with Chinese translations.",
        }
    }

    pub fn few_shot(self) -> (r: Vec<(String, String)>)
        ensures
            pairs_view(r@) == few_shot_spec(self),
    {
        let from = self.origin();
        let to = self.target();
        let mut pairs: Vec<(String, String)> = Vec::new();
        let mut i: usize = 0;
        while i < EXAMPLE_COUNT
            invariant
                i <= EXAMPLE_COUNT,
                from == self.spec_origin(),
                to == self.spec_target(),
                pairs_view(pairs@) == few_shot_spec(self).take(i as int),
            decreases EXAMPLE_COUNT - i,
        {
            let pair = (String::from_str(example(from, i)), String::from_str(example(to, i)));
            assert(few_shot_spec(self)[i as int] == (pair.0@, pair.1@));
            let ghost before = pairs@;
            pairs.push(pair);
            assert(pairs@ == before.push(pair));
            assert(pairs_view(pairs@) =~= pairs_view(before).push((pair.0@, pair.1@)));
            assert(pairs_view(pairs@) =~= few_shot_spec(self).take(i + 1));
            i = i + 1;
        }
        assert(few_shot_spec(self).take(EXAMPLE_COUNT as int) =~= few_shot_spec(self));
        pairs
    }

    /// The request that translates `text` in this direction.
    pub fn request(self, text: String) -> (r: TranslationRequest)
        ensures
            r@ == translation_spec(self, text@),
    {
        query_openai(String::from_str(self.system_prompt()), self.few_shot(), text)
    }
}

pub fn chinese_to_english(chinese: String) -> (r: TranslationRequest)
    ensures
        r@ == translation_spec(Direction::ChineseToEnglish, chinese@),
{
    Direction::ChineseToEnglish.request(chinese)
}

pub fn english_to_chinese(english: String) -> (r: TranslationRequest)
    ensures
        r@ == translation_spec(Direction::EnglishToChinese, english@),
{
    Direction::EnglishToChinese.request(english)
}

pub fn chinese_to_pinyin(chinese: String) -> (r: TranslationRequest)
    ensures
        r@ == translation_spec(Direction::ChineseToPinyin, chinese@),
{
    Direction::ChineseToPinyin.request(chinese)
}

pub fn pinyin_to_chinese(pinyin: String) -> (r: TranslationRequest)
    ensures
        r@ == translation_spec(Direction::PinyinToChinese, pinyin@),
{
    Direction::PinyinToChinese.request(pinyin)
}

} // verus!
