use erudify::{
    chinese_to_english, chinese_to_pinyin, english_to_chinese, pinyin_to_chinese, query_openai,
    Direction, Field, Source, MAX_TOKENS, MODEL,
};

#[test]
fn source_accessors_pick_the_typed_field() {
    let s = Source::Chinese("你好".to_string());
    assert_eq!(s.as_chinese(), Some(&"你好".to_string()));
    assert_eq!(s.as_english(), None);
    assert_eq!(s.as_pinyin(), None);
    assert_eq!(s.field(), Field::Chinese);
    let p = Source::new(Field::Pinyin, "nǐ hǎo".to_string());
    assert_eq!(p, Source::Pinyin("nǐ hǎo".to_string()));
    assert_eq!(p.as_pinyin(), Some(&"nǐ hǎo".to_string()));
    assert_eq!(p.text(), "nǐ hǎo");
}

#[test]
fn directions_read_and_fill_fields() {
    assert_eq!(Direction::ChineseToEnglish.origin(), Field::Chinese);
    assert_eq!(Direction::ChineseToEnglish.target(), Field::English);
    assert_eq!(Direction::EnglishToChinese.target(), Field::Chinese);
    assert_eq!(Direction::PinyinToChinese.origin(), Field::Pinyin);
    assert_eq!(Direction::ChineseToPinyin.target(), Field::Pinyin);
}

#[test]
fn query_openai_fixes_the_model_settings() {
    let req = query_openai(
        "sys".to_string(),
        vec![("a".to_string(), "b".to_string())],
        "p".to_string(),
    );
    assert_eq!(req.system, "sys");
    assert_eq!(req.history, vec![("a".to_string(), "b".to_string())]);
    assert_eq!(req.prompt, "p");
    assert_eq!(req.model, "openai/gpt-4o-mini");
    assert_eq!(req.model, MODEL);
    assert_eq!(req.max_tokens, 128);
    assert_eq!(MAX_TOKENS, 128);
}

#[test]
fn chinese_to_english_request() {
    let req = chinese_to_english("我忘记带钥匙了。".to_string());
    assert_eq!(
        req.system,
        "You are a Chinese to English translation system. You will respond only with translations."
    );
    assert_eq!(req.prompt, "我忘记带钥匙了。");
    assert_eq!(req.history.len(), 4);
    assert_eq!(req.history[0], ("你需要哪本书？".to_string(), "Which book do you need?".to_string()));
    assert_eq!(
        req.history[1],
        ("这只苹果有半公斤。".to_string(), "This apple weighs half a kilogram.".to_string())
    );
    assert_eq!(req.history[2], (String::new(), String::new()));
    assert_eq!(req.history[3], ("她正在打电话。".to_string(), "She is making a phone call.".to_string()));
}

#[test]
fn english_to_chinese_request() {
    let req = english_to_chinese("Hello".to_string());
    assert_eq!(
        req.system,
        "You are an English to Chinese translation system. You will respond only with translations."
    );
    assert_eq!(req.history[0], ("Which book do you need?".to_string(), "你需要哪本书？".to_string()));
    assert_eq!(req.history[2], (String::new(), String::new()));
    assert_eq!(req.history[3], ("She is making a phone call.".to_string(), "她正在打电话。".to_string()));
    assert_eq!(req.prompt, "Hello");
}

#[test]
fn chinese_to_pinyin_request() {
    let req = chinese_to_pinyin("你好".to_string());
    assert_eq!(
        req.system,
        "You are a Chinese to Pinyin translation system. You will respond only with Pinyin translations."
    );
    assert_eq!(req.history[0], ("你需要哪本书？".to_string(), "Nǐ xūyào nǎ běn shū?".to_string()));
    assert_eq!(
        req.history[1],
        ("这只苹果有半公斤。".to_string(), "Zhè zhī píngguǒ yǒu bàn gōngjīn.".to_string())
    );
    assert_eq!(req.history[3], ("她正在打电话。".to_string(), "Tā zhèngzài dǎ diànhuà.".to_string()));
}

#[test]
fn pinyin_to_chinese_request() {
    let req = pinyin_to_chinese("nǐ hǎo".to_string());
    assert_eq!(
        req.system,
        "You are a Pinyin to Chinese translation system. You will respond only with Chinese translations."
    );
    assert_eq!(req.history[3], ("Tā zhèngzài dǎ diànhuà.".to_string(), "她正在打电话。".to_string()));
    assert_eq!(req.history[2], (String::new(), String::new()));
    assert_eq!(req.prompt, "nǐ hǎo");
}
