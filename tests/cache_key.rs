use erudify::{assemble_payload, cache_key, chinese_to_english, chinese_to_pinyin, format_radix, hex_digest, payload_text, query_openai};
use std::hash::{Hash, Hasher};

#[test]
fn hex_digest_values() {
    assert_eq!(hex_digest(0), "0");
    assert_eq!(hex_digest(255), "ff");
    assert_eq!(hex_digest(4096), "1000");
    assert_eq!(hex_digest(u64::MAX), "ffffffffffffffff");
    assert_eq!(hex_digest(0xdeadbeef), format!("{:x}", 0xdeadbeefu64));
}

#[test]
fn format_radix_decimal_and_binary() {
    assert_eq!(format_radix(128, 10), "128");
    assert_eq!(format_radix(0, 10), "0");
    assert_eq!(format_radix(5, 2), "101");
    assert_eq!(format_radix(u64::MAX, 10), "18446744073709551615");
}

#[test]
fn payload_text_is_canonical_json() {
    let req = query_openai(
        "s".to_string(),
        vec![("a".to_string(), "b".to_string())],
        "p".to_string(),
    );
    assert_eq!(
        payload_text(&req).unwrap(),
        "{\"model\":\"openai/gpt-4o-mini\",\"max_tokens\":128,\"messages\":[\
         {\"role\":\"system\",\"content\":\"s\"},\
         {\"role\":\"user\",\"content\":\"a\"},\
         {\"role\":\"assistant\",\"content\":\"b\"},\
         {\"role\":\"user\",\"content\":\"p\"}]}"
    );
}

#[test]
fn payload_text_escapes_strings() {
    let req = query_openai("say \"hi\"".to_string(), vec![], "a\nb".to_string());
    assert_eq!(
        payload_text(&req).unwrap(),
        "{\"model\":\"openai/gpt-4o-mini\",\"max_tokens\":128,\"messages\":[\
         {\"role\":\"system\",\"content\":\"say \\\"hi\\\"\"},\
         {\"role\":\"user\",\"content\":\"a\\nb\"}]}"
    );
}

#[test]
fn cache_key_is_hex_digest_of_payload() {
    let req = chinese_to_english("我忘记带钥匙了。".to_string());
    let text = payload_text(&req).unwrap();
    let mut hasher = ahash::AHasher::default();
    text.as_str().hash(&mut hasher);
    let expected = format!("{:x}", hasher.finish());
    assert_eq!(cache_key(&req).unwrap(), expected);
    assert!(cache_key(&req).unwrap().chars().all(|c| c.is_ascii_hexdigit() && !c.is_ascii_uppercase()));
}

#[test]
fn cache_key_same_request_same_key() {
    let a = cache_key(&chinese_to_english("你好".to_string())).unwrap();
    let b = cache_key(&chinese_to_english("你好".to_string())).unwrap();
    assert_eq!(a, b);
}

#[test]
fn cache_key_distinct_requests_distinct_keys() {
    let texts = ["你好", "你好吗", "我忘记带钥匙了。", "", " ", "她正在打电话。", "a", "b"];
    let mut keys: Vec<String> = Vec::new();
    for t in texts.iter() {
        keys.push(cache_key(&chinese_to_english(t.to_string())).unwrap());
        keys.push(cache_key(&chinese_to_pinyin(t.to_string())).unwrap());
    }
    for i in 0..keys.len() {
        for j in 0..i {
            assert_ne!(keys[i], keys[j]);
        }
    }
}

#[test]
fn assemble_payload_from_quoted_texts() {
    let history = vec![("\"q\"".to_string(), "\"a\"".to_string()), ("\"\"".to_string(), "\"\"".to_string())];
    assert_eq!(
        assemble_payload("\"m\"", 7, "\"s\"", &history, "\"p\""),
        "{\"model\":\"m\",\"max_tokens\":7,\"messages\":[\
         {\"role\":\"system\",\"content\":\"s\"},\
         {\"role\":\"user\",\"content\":\"q\"},\
         {\"role\":\"assistant\",\"content\":\"a\"},\
         {\"role\":\"user\",\"content\":\"\"},\
         {\"role\":\"assistant\",\"content\":\"\"},\
         {\"role\":\"user\",\"content\":\"p\"}]}"
    );
}
