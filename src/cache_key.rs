use vstd::prelude::*;
use vstd::string::*;
use std::hash::{Hash, Hasher};
use crate::prompts::{pairs_view, translation_spec, RequestView, TranslationRequest};
use crate::source::Direction;

verus! {

/// What `serde_json::to_string` makes of a string: its JSON literal, or
/// `None` where serialisation fails.
pub uninterp spec fn json_string_of(s: Seq<char>) -> Option<Seq<char>>;

/// What a default-keyed `ahash::AHasher` gives for a string.
pub uninterp spec fn ahash_of(s: Seq<char>) -> u64;

/// Relies on `serde_json::to_string`: the JSON literal of a string, a function
/// of the string alone.
#[verifier::external_body]
fn json_string(s: &str) -> (r: Option<String>)
    ensures
        r is Some <==> json_string_of(s@) is Some,
        r matches Some(j) ==> json_string_of(s@) == Some(j@),
{
    serde_json::to_string(s).ok()
}

/// Relies on `ahash::AHasher::default`, `<str as Hash>::hash` and
/// `Hasher::finish`: with the crate's default features off the hasher's keys
/// are fixed constants, so the digest depends on the string alone.
#[verifier::external_body]
fn ahash_str(s: &str) -> (r: u64)
    ensures
        r == ahash_of(s@),
{
    let mut hasher = ahash::AHasher::default();
    s.hash(&mut hasher);
    hasher.finish()
}

/// The digit for `d` in bases up to sixteen, lower case.
pub open spec fn digit_char(d: nat) -> char {
    seq!['0', '1', '2', '3', '4', '5', '6', '7', '8', '9', 'a', 'b', 'c', 'd', 'e', 'f'][d as int]
}

/// `n` written in `base`, most significant digit first, without leading zeros.
pub open spec fn radix_digits(n: nat, base: nat) -> Seq<char>
    decreases n,
    via radix_digits_decreases
{
    if base < 2 || base > 16 {
        Seq::empty()
    } else if n < base {
        seq![digit_char(n)]
    } else {
        radix_digits(n / base, base).push(digit_char(n % base))
    }
}

#[via_fn]
proof fn radix_digits_decreases(n: nat, base: nat) {
    if 2 <= base && n >= base {
        assert(n / base < n) by (nonlinear_arith)
            requires
                2 <= base,
                n >= base,
        ;
    }
}

fn digit(d: u64) -> (r: &'static str)
    requires
        d < 16,
    ensures
        r@ == seq![digit_char(d as nat)],
{
    proof {
        reveal_strlit("0");
        reveal_strlit("1");
        reveal_strlit("2");
        reveal_strlit("3");
        reveal_strlit("4");
        reveal_strlit("5");
        reveal_strlit("6");
        reveal_strlit("7");
        reveal_strlit("8");
        reveal_strlit("9");
        reveal_strlit("a");
        reveal_strlit("b");
        reveal_strlit("c");
        reveal_strlit("d");
        reveal_strlit("e");
        reveal_strlit("f");
    }
    let r = if d == 0 {
        "0"
    } else if d == 1 {
        "1"
    } else if d == 2 {
        "2"
    } else if d == 3 {
        "3"
    } else if d == 4 {
        "4"
    } else if d == 5 {
        "5"
    } else if d == 6 {
        "6"
    } else if d == 7 {
        "7"
    } else if d == 8 {
        "8"
    } else if d == 9 {
        "9"
    } else if d == 10 {
        "a"
    } else if d == 11 {
        "b"
    } else if d == 12 {
        "c"
    } else if d == 13 {
        "d"
    } else if d == 14 {
        "e"
    } else {
        "f"
    };
    assert(r@ =~= seq![digit_char(d as nat)]);
    r
}

/// `n` written in `base` (two to sixteen), lower-case digits, no leading zeros.
pub fn format_radix(n: u64, base: u64) -> (r: String)
    requires
        2 <= base <= 16,
    ensures
        r@ == radix_digits(n as nat, base as nat),
    decreases n,
{
    if n < base {
        String::from_str(digit(n))
    } else {
        assert(n / base < n) by (nonlinear_arith)
            requires
                2 <= base,
                n >= base,
        ;
        let mut s = format_radix(n / base, base);
        s.append(digit(n % base));
        s
    }
}

/// The lower-case hexadecimal form of a digest, as cache keys are written.
pub fn hex_digest(h: u64) -> (r: String)
    ensures
        r@ == radix_digits(h as nat, 16),
{
    format_radix(h, 16)
}

/// The JSON literal of `s`, or nothing where it has none.
pub open spec fn quoted(s: Seq<char>) -> Seq<char> {
    match json_string_of(s) {
        Some(q) => q,
        None => Seq::empty(),
    }
}

/// Every text of the request has a JSON literal.
pub open spec fn quotable(r: RequestView) -> bool {
    &&& json_string_of(r.system) is Some
    &&& json_string_of(r.prompt) is Some
    &&& json_string_of(r.model) is Some
    &&& forall|i: int|
        0 <= i < r.history.len() ==> {
            &&& #[trigger] json_string_of(r.history[i].0) is Some
            &&& json_string_of(r.history[i].1) is Some
        }
}

pub open spec fn message(prefix: Seq<char>, content: Seq<char>) -> Seq<char> {
    prefix + content + "}"@
}

pub open spec fn system_prefix() -> Seq<char> {
    "{\"role\":\"system\",\"content\":"@
}

pub open spec fn user_prefix() -> Seq<char> {
    "{\"role\":\"user\",\"content\":"@
}

pub open spec fn assistant_prefix() -> Seq<char> {
    "{\"role\":\"assistant\",\"content\":"@
}

/// Example exchanges, their texts already quoted, as messages each preceded
/// by a comma.
pub open spec fn history_text(h: Seq<(Seq<char>, Seq<char>)>) -> Seq<char>
    decreases h.len(),
{
    if h.len() == 0 {
        Seq::empty()
    } else {
        history_text(h.drop_last()) + ","@ + message(user_prefix(), h.last().0) + ","@ + message(
            assistant_prefix(),
            h.last().1,
        )
    }
}

/// The canonical text built from the quoted texts of a request: every field
/// that reaches the model, in a fixed order, as JSON.
pub open spec fn assembled(
    model: Seq<char>,
    max_tokens: u16,
    system: Seq<char>,
    history: Seq<(Seq<char>, Seq<char>)>,
    prompt: Seq<char>,
) -> Seq<char> {
    "{\"model\":"@ + model + ",\"max_tokens\":"@ + radix_digits(max_tokens as nat, 10)
        + ",\"messages\":["@ + message(system_prefix(), system) + history_text(history) + ","@
        + message(user_prefix(), prompt) + "]}"@
}

pub open spec fn quoted_pairs(h: Seq<(Seq<char>, Seq<char>)>) -> Seq<(Seq<char>, Seq<char>)> {
    h.map_values(|p: (Seq<char>, Seq<char>)| (quoted(p.0), quoted(p.1)))
}

/// The canonical text of a request.
pub open spec fn payload_spec(r: RequestView) -> Seq<char> {
    assembled(
        quoted(r.model),
        r.max_tokens,
        quoted(r.system),
        quoted_pairs(r.history),
        quoted(r.prompt),
    )
}

/// The cache key of a request: the hexadecimal digest of its canonical text.
pub open spec fn key_spec(r: RequestView) -> Seq<char> {
    radix_digits(ahash_of(payload_spec(r)) as nat, 16)
}

/// The canonical text from texts that are already JSON literals.
pub fn assemble_payload(
    model: &str,
    max_tokens: u16,
    system: &str,
    history: &Vec<(String, String)>,
    prompt: &str,
) -> (r: String)
    ensures
        r@ == assembled(model@, max_tokens, system@, pairs_view(history@), prompt@),
{
    let ghost h = pairs_view(history@);
    let mut out = String::from_str("{\"model\":");
    out.append(model);
    out.append(",\"max_tokens\":");
    let digits = format_radix(max_tokens as u64, 10);
    out.append(digits.as_str());
    out.append(",\"messages\":[{\"role\":\"system\",\"content\":");
    out.append(system);
    out.append("}");
    let ghost head = out@;
    proof {
        reveal_strlit("{\"model\":");
        reveal_strlit(",\"max_tokens\":");
        reveal_strlit(",\"messages\":[");
        reveal_strlit("{\"role\":\"system\",\"content\":");
        reveal_strlit(",\"messages\":[{\"role\":\"system\",\"content\":");
        assert(head =~= "{\"model\":"@ + model@ + ",\"max_tokens\":"@ + radix_digits(
            max_tokens as nat,
            10,
        ) + ",\"messages\":["@ + message(system_prefix(), system@));
    }
    let mut i: usize = 0;
    while i < history.len()
        invariant
            h == pairs_view(history@),
            i <= history.len(),
            out@ == head + history_text(h.take(i as int)),
        decreases history.len() - i,
    {
        let pair = &history[i];
        assert(h[i as int] == (pair.0@, pair.1@));
        out.append(",{\"role\":\"user\",\"content\":");
        out.append(pair.0.as_str());
        out.append("},{\"role\":\"assistant\",\"content\":");
        out.append(pair.1.as_str());
        out.append("}");
        proof {
            reveal_strlit(",{\"role\":\"user\",\"content\":");
            reveal_strlit("},{\"role\":\"assistant\",\"content\":");
            reveal_strlit("{\"role\":\"user\",\"content\":");
            reveal_strlit("{\"role\":\"assistant\",\"content\":");
            reveal_strlit(",");
            reveal_strlit("}");
            assert(h.take(i + 1).drop_last() =~= h.take(i as int));
            assert(out@ =~= head + history_text(h.take(i + 1)));
        }
        i = i + 1;
    }
    assert(h.take(i as int) =~= h);
    out.append(",{\"role\":\"user\",\"content\":");
    out.append(prompt);
    out.append("}]}");
    proof {
        reveal_strlit(",{\"role\":\"user\",\"content\":");
        reveal_strlit("{\"role\":\"user\",\"content\":");
        reveal_strlit("}]}");
        reveal_strlit("]}");
        reveal_strlit(",");
        reveal_strlit("}");
        assert(out@ =~= assembled(model@, max_tokens, system@, h, prompt@));
    }
    out
}

/// The JSON literal of `s`, or `None` where it has none.
fn quote(s: &String) -> (r: Option<String>)
    ensures
        r is Some <==> json_string_of(s@) is Some,
        r matches Some(q) ==> q@ == quoted(s@),
{
    json_string(s.as_str())
}

/// The example exchanges with each text quoted, or `None` where one has no
/// JSON literal.
fn quote_pairs(history: &Vec<(String, String)>) -> (r: Option<Vec<(String, String)>>)
    ensures
        r is Some <==> forall|i: int|
            0 <= i < history@.len() ==> {
                &&& #[trigger] json_string_of(pairs_view(history@)[i].0) is Some
                &&& json_string_of(pairs_view(history@)[i].1) is Some
            },
        r matches Some(q) ==> pairs_view(q@) == quoted_pairs(pairs_view(history@)),
{
    let ghost h = pairs_view(history@);
    let mut out: Vec<(String, String)> = Vec::new();
    let mut i: usize = 0;
    while i < history.len()
        invariant
            h == pairs_view(history@),
            i <= history.len(),
            forall|j: int|
                0 <= j < i ==> {
                    &&& #[trigger] json_string_of(h[j].0) is Some
                    &&& json_string_of(h[j].1) is Some
                },
            pairs_view(out@) == quoted_pairs(h).take(i as int),
        decreases history.len() - i,
    {
        let pair = &history[i];
        assert(h[i as int] == (pair.0@, pair.1@));
        let q0 = match quote(&pair.0) {
            Some(q) => q,
            None => {
                assert(json_string_of(h[i as int].0) is None);
                return None;
            },
        };
        let q1 = match quote(&pair.1) {
            Some(q) => q,
            None => {
                assert(json_string_of(h[i as int].1) is None);
                return None;
            },
        };
        assert(quoted_pairs(h)[i as int] == (q0@, q1@));
        let ghost before = out@;
        out.push((q0, q1));
        assert(out@ == before.push((q0, q1)));
        assert(pairs_view(out@) =~= pairs_view(before).push((q0@, q1@)));
        assert(pairs_view(out@) =~= quoted_pairs(h).take(i + 1));
        i = i + 1;
    }
    assert(quoted_pairs(h).take(i as int) =~= quoted_pairs(h));
    Some(out)
}

/// The canonical text of a request, or `None` where one of its texts has no
/// JSON literal.
pub fn payload_text(req: &TranslationRequest) -> (r: Option<String>)
    ensures
        r is Some <==> quotable(req@),
        r matches Some(t) ==> t@ == payload_spec(req@),
{
    let model = match quote(&req.model) {
        Some(q) => q,
        None => return None,
    };
    let system = match quote(&req.system) {
        Some(q) => q,
        None => return None,
    };
    let history = match quote_pairs(&req.history) {
        Some(q) => q,
        None => return None,
    };
    let prompt = match quote(&req.prompt) {
        Some(q) => q,
        None => return None,
    };
    Some(assemble_payload(model.as_str(), req.max_tokens, system.as_str(), &history, prompt.as_str()))
}

/// The cache key of a request: the hexadecimal `ahash` digest of its
/// canonical text, or `None` where the text cannot be formed.
pub fn cache_key(req: &TranslationRequest) -> (r: Option<String>)
    ensures
        r is Some <==> quotable(req@),
        r matches Some(k) ==> k@ == key_spec(req@),
{
    match payload_text(req) {
        Some(text) => Some(hex_digest(ahash_str(text.as_str()))),
        None => None,
    }
}

/// The cache key depends on the request alone: equal requests, however they
/// were built, have equal keys.
pub proof fn lemma_key_deterministic(r1: RequestView, r2: RequestView)
    requires
        r1 == r2,
    ensures
        key_spec(r1) == key_spec(r2),
        payload_spec(r1) == payload_spec(r2),
{
}

/// Distinct texts to translate in one direction make distinct requests.
pub proof fn lemma_distinct_texts_distinct_requests(d: Direction, t1: Seq<char>, t2: Seq<char>)
    requires
        t1 != t2,
    ensures
        translation_spec(d, t1) != translation_spec(d, t2),
{
    assert(translation_spec(d, t1).prompt != translation_spec(d, t2).prompt);
}

proof fn lemma_digit_char_injective(a: nat, b: nat)
    requires
        a < 16,
        b < 16,
        digit_char(a) == digit_char(b),
    ensures
        a == b,
{
    let s = seq!['0', '1', '2', '3', '4', '5', '6', '7', '8', '9', 'a', 'b', 'c', 'd', 'e', 'f'];
    assert(forall|i: int, j: int| 0 <= i < 16 && 0 <= j < 16 && i != j ==> s[i] != s[j]);
}

proof fn lemma_radix_digits_len(n: nat, base: nat)
    requires
        2 <= base <= 16,
    ensures
        radix_digits(n, base).len() >= 1,
        radix_digits(n, base).len() == 1 <==> n < base,
    decreases n,
{
    if n >= base {
        assert(n / base < n) by (nonlinear_arith)
            requires
                2 <= base,
                n >= base,
        ;
        lemma_radix_digits_len(n / base, base);
    }
}

/// Numbers written in one base are equal only when their digits are.
pub proof fn lemma_radix_digits_injective(n: nat, m: nat, base: nat)
    requires
        2 <= base <= 16,
        radix_digits(n, base) == radix_digits(m, base),
    ensures
        n == m,
    decreases n,
{
    lemma_radix_digits_len(n, base);
    lemma_radix_digits_len(m, base);
    if n < base {
        assert(radix_digits(n, base)[0] == digit_char(n));
        assert(radix_digits(m, base)[0] == digit_char(m));
        lemma_digit_char_injective(n, m);
    } else {
        let dn = radix_digits(n, base);
        let dm = radix_digits(m, base);
        assert(dn.drop_last() =~= radix_digits(n / base, base));
        assert(dm.drop_last() =~= radix_digits(m / base, base));
        assert(n / base < n) by (nonlinear_arith)
            requires
                2 <= base,
                n >= base,
        ;
        lemma_radix_digits_injective(n / base, m / base, base);
        assert(dn.last() == digit_char(n % base));
        assert(dm.last() == digit_char(m % base));
        lemma_digit_char_injective(n % base, m % base);
        assert(n == base * (n / base) + n % base) by (nonlinear_arith)
            requires
                2 <= base,
        ;
        assert(m == base * (m / base) + m % base) by (nonlinear_arith)
            requires
                2 <= base,
        ;
    }
}

/// Keys collide only where the digests of the canonical texts do: requests
/// whose texts hash apart have different keys.
pub proof fn lemma_distinct_digests_distinct_keys(r1: RequestView, r2: RequestView)
    requires
        ahash_of(payload_spec(r1)) != ahash_of(payload_spec(r2)),
    ensures
        key_spec(r1) != key_spec(r2),
{
    if key_spec(r1) == key_spec(r2) {
        lemma_radix_digits_injective(
            ahash_of(payload_spec(r1)) as nat,
            ahash_of(payload_spec(r2)) as nat,
            16,
        );
    }
}

} // verus!
