use vstd::prelude::*;
use vstd::string::*;
use crate::cache::{reply_view, UpstreamError};
use crate::source::{route, route_of, Direction, Field, Source};

verus! {

/// How long, in milliseconds, edits must pause before the other fields are
/// derived.
pub const DEBOUNCE_MS: u64 = 1000;

/// What a field shows when its translation failed.
pub const FALLBACK_TEXT: &'static str = "translation unavailable";

/// `a + b`, or the largest `u64` where that overflows.
pub open spec fn saturating_sum(a: u64, b: u64) -> u64 {
    if a + b > u64::MAX {
        u64::MAX
    } else {
        (a + b) as u64
    }
}

/// A translation the engine asks for: the text to translate, the direction,
/// and the generation of the edit it serves.
#[derive(Debug)]
pub struct DerivationRequest {
    pub from_text: String,
    pub direction: Direction,
    pub issued_at: u64,
}

pub struct DerivationView {
    pub from_text: Seq<char>,
    pub direction: Direction,
    pub issued_at: u64,
}

impl View for DerivationRequest {
    type V = DerivationView;

    open spec fn view(&self) -> DerivationView {
        DerivationView {
            from_text: self.from_text@,
            direction: self.direction,
            issued_at: self.issued_at,
        }
    }
}

pub open spec fn requests_view(s: Seq<DerivationRequest>) -> Seq<DerivationView> {
    s.map_values(|r: DerivationRequest| r@)
}

/// The field derived after Chinese when English or Pinyin is typed.
pub open spec fn follow_field(typed: Field) -> Field {
    match typed {
        Field::English => Field::Pinyin,
        _ => Field::English,
    }
}

/// Whether `f` is being translated in the first pass for an edit of `typed`:
/// both other fields for Chinese, else Chinese alone.
pub open spec fn first_pass_loading(typed: Field, f: Field) -> bool {
    if typed == Field::Chinese {
        f != Field::Chinese
    } else {
        f == Field::Chinese
    }
}

/// The requests of the first pass for the typed text `src` at generation `g`.
pub open spec fn first_pass(src: (Field, Seq<char>), g: u64) -> Seq<DerivationView> {
    match src.0 {
        Field::Chinese => seq![
            DerivationView { from_text: src.1, direction: Direction::ChineseToEnglish, issued_at: g },
            DerivationView { from_text: src.1, direction: Direction::ChineseToPinyin, issued_at: g },
        ],
        Field::English => seq![
            DerivationView { from_text: src.1, direction: Direction::EnglishToChinese, issued_at: g },
        ],
        Field::Pinyin => seq![
            DerivationView { from_text: src.1, direction: Direction::PinyinToChinese, issued_at: g },
        ],
    }
}

/// What a field shows for a reply: the reply, or the fallback text.
pub open spec fn shown(reply: Option<Seq<char>>) -> Seq<char> {
    match reply {
        Some(t) => t,
        None => FALLBACK_TEXT@,
    }
}

/// The engine's state as plain values.
pub struct SyncModel {
    /// The field being edited and its text.
    pub source: (Field, Seq<char>),
    /// Counts the edits; a reply is applied only at the generation it was
    /// asked for.
    pub generation: u64,
    /// When the pending edit is due for derivation, if one is pending.
    pub deadline: Option<u64>,
    /// The latest derived text of each field.
    pub chinese: Seq<char>,
    pub english: Seq<char>,
    pub pinyin: Seq<char>,
    /// Whether a translation into each field is in flight at this generation.
    pub loading_chinese: bool,
    pub loading_english: bool,
    pub loading_pinyin: bool,
}

impl SyncModel {
    pub open spec fn derived(self, f: Field) -> Seq<char> {
        match f {
            Field::Chinese => self.chinese,
            Field::English => self.english,
            Field::Pinyin => self.pinyin,
        }
    }

    pub open spec fn loading(self, f: Field) -> bool {
        match f {
            Field::Chinese => self.loading_chinese,
            Field::English => self.loading_english,
            Field::Pinyin => self.loading_pinyin,
        }
    }

    /// What a field shows: the typed text for the edited field, the derived
    /// text for the others.
    pub open spec fn display(self, f: Field) -> Seq<char> {
        if f == self.source.0 {
            self.source.1
        } else {
            self.derived(f)
        }
    }

    pub open spec fn with_derived(self, f: Field, t: Seq<char>) -> SyncModel {
        match f {
            Field::Chinese => SyncModel { chinese: t, ..self },
            Field::English => SyncModel { english: t, ..self },
            Field::Pinyin => SyncModel { pinyin: t, ..self },
        }
    }

    pub open spec fn with_loading(self, f: Field, b: bool) -> SyncModel {
        match f {
            Field::Chinese => SyncModel { loading_chinese: b, ..self },
            Field::English => SyncModel { loading_english: b, ..self },
            Field::Pinyin => SyncModel { loading_pinyin: b, ..self },
        }
    }

    /// The direction in flight into `f`, as a sequence of at most one.
    pub open spec fn in_flight(self, f: Field) -> Seq<Direction> {
        if self.loading(f) && route(self.source.0, f) is Some {
            seq![route(self.source.0, f)->Some_0]
        } else {
            Seq::empty()
        }
    }

    /// The directions in flight, by the field they fill: Chinese, English,
    /// Pinyin.
    pub open spec fn pending(self) -> Seq<Direction> {
        self.in_flight(Field::Chinese) + self.in_flight(Field::English) + self.in_flight(
            Field::Pinyin,
        )
    }

    /// The edited field is never waiting for a translation.
    pub open spec fn wf(self) -> bool {
        !self.loading(self.source.0)
    }

    /// The state for `src` before anything is derived: due at once.
    pub open spec fn initial(src: (Field, Seq<char>)) -> SyncModel {
        SyncModel {
            source: src,
            generation: 0,
            deadline: Some(0),
            chinese: Seq::empty(),
            english: Seq::empty(),
            pinyin: Seq::empty(),
            loading_chinese: false,
            loading_english: false,
            loading_pinyin: false,
        }
    }

    /// After the user typed `src` at `now`: a new generation, nothing in
    /// flight, derivation due one debounce window later.
    pub open spec fn edited(self, src: (Field, Seq<char>), now: u64) -> SyncModel {
        SyncModel {
            source: src,
            generation: (self.generation + 1) as u64,
            deadline: Some(saturating_sum(now, DEBOUNCE_MS)),
            loading_chinese: false,
            loading_english: false,
            loading_pinyin: false,
            ..self
        }
    }

    pub open spec fn due(self, now: u64) -> bool {
        self.deadline matches Some(d) && d <= now
    }

    /// After the timer is checked at `now`: if the edit is due, the first pass
    /// is in flight.
    pub open spec fn ticked(self, now: u64) -> SyncModel {
        if self.due(now) {
            SyncModel {
                deadline: None,
                loading_chinese: first_pass_loading(self.source.0, Field::Chinese),
                loading_english: first_pass_loading(self.source.0, Field::English),
                loading_pinyin: first_pass_loading(self.source.0, Field::Pinyin),
                ..self
            }
        } else {
            self
        }
    }

    /// The requests issued when the timer is checked at `now`.
    pub open spec fn tick_requests(self, now: u64) -> Seq<DerivationView> {
        if self.due(now) {
            first_pass(self.source, self.generation)
        } else {
            Seq::empty()
        }
    }

    /// A reply is taken only if it was asked for at this generation, in the
    /// direction that derives its field now, and that field is still waiting.
    pub open spec fn accepts(self, issued_at: u64, d: Direction) -> bool {
        &&& issued_at == self.generation
        &&& route(self.source.0, d.spec_target()) == Some(d)
        &&& self.loading(d.spec_target())
    }

    /// After the reply `reply` (`None` for a failure) to a request in direction
    /// `d` at generation `issued_at`.
    pub open spec fn received(self, issued_at: u64, d: Direction, reply: Option<Seq<char>>) -> SyncModel {
        if !self.accepts(issued_at, d) {
            self
        } else {
            let t = d.spec_target();
            let next = self.with_derived(t, shown(reply)).with_loading(t, false);
            if t == Field::Chinese {
                let f = follow_field(self.source.0);
                match reply {
                    Some(_) => next.with_loading(f, true),
                    None => next.with_derived(f, FALLBACK_TEXT@),
                }
            } else {
                next
            }
        }
    }

    /// The request that a reply leads to: a Chinese text derived from English
    /// or Pinyin is in turn translated into the remaining field.
    pub open spec fn follow_up(self, issued_at: u64, d: Direction, reply: Option<Seq<char>>) -> Option<
        DerivationView,
    > {
        if self.accepts(issued_at, d) && d.spec_target() == Field::Chinese && reply is Some {
            Some(
                DerivationView {
                    from_text: reply->Some_0,
                    direction: route(self.source.0, follow_field(self.source.0))->Some_0,
                    issued_at: self.generation,
                },
            )
        } else {
            None
        }
    }
}

/// Keeps the Chinese, English and Pinyin fields in step: the field being
/// edited is authoritative, the other two are derived from it through
/// translations, and replies to superseded edits are dropped.
pub struct SyncEngine {
    source: Source,
    generation: u64,
    deadline: Option<u64>,
    chinese: String,
    english: String,
    pinyin: String,
    loading_chinese: bool,
    loading_english: bool,
    loading_pinyin: bool,
}

impl View for SyncEngine {
    type V = SyncModel;

    closed spec fn view(&self) -> SyncModel {
        SyncModel {
            source: self.source@,
            generation: self.generation,
            deadline: self.deadline,
            chinese: self.chinese@,
            english: self.english@,
            pinyin: self.pinyin@,
            loading_chinese: self.loading_chinese,
            loading_english: self.loading_english,
            loading_pinyin: self.loading_pinyin,
        }
    }
}

impl SyncEngine {
    /// An engine for the typed text `source`, due for derivation at once.
    pub fn new(source: Source) -> (r: SyncEngine)
        ensures
            r@ == SyncModel::initial(source@),
            r@.wf(),
    {
        SyncEngine {
            source,
            generation: 0,
            deadline: Some(0),
            chinese: String::new(),
            english: String::new(),
            pinyin: String::new(),
            loading_chinese: false,
            loading_english: false,
            loading_pinyin: false,
        }
    }

    pub fn source(&self) -> (r: &Source)
        ensures
            r@ == self@.source,
    {
        &self.source
    }

    pub fn generation(&self) -> (r: u64)
        ensures
            r == self@.generation,
    {
        self.generation
    }

    /// When the pending edit is due, if one is pending.
    pub fn deadline(&self) -> (r: Option<u64>)
        ensures
            r == self@.deadline,
    {
        self.deadline
    }

    /// Whether a translation into `f` is in flight.
    pub fn is_loading(&self, f: Field) -> (r: bool)
        ensures
            r == self@.loading(f),
    {
        match f {
            Field::Chinese => self.loading_chinese,
            Field::English => self.loading_english,
            Field::Pinyin => self.loading_pinyin,
        }
    }

    /// The translations in flight, by the field they fill: Chinese,
    /// English, Pinyin.
    pub fn pending(&self) -> (r: Vec<Direction>)
        ensures
            r@ == self@.pending(),
    {
        let typed = self.source.field();
        let mut out: Vec<Direction> = Vec::new();
        if self.loading_chinese {
            if let Some(d) = route_of(typed, Field::Chinese) {
                out.push(d);
            }
        }
        if self.loading_english {
            if let Some(d) = route_of(typed, Field::English) {
                out.push(d);
            }
        }
        if self.loading_pinyin {
            if let Some(d) = route_of(typed, Field::Pinyin) {
                out.push(d);
            }
        }
        assert(out@ =~= self@.pending());
        out
    }

    /// The text a field shows.
    pub fn display(&self, f: Field) -> (r: &String)
        ensures
            r@ == self@.display(f),
    {
        if self.source.field() == f {
            self.source.text()
        } else {
            match f {
                Field::Chinese => &self.chinese,
                Field::English => &self.english,
                Field::Pinyin => &self.pinyin,
            }
        }
    }

    fn set_derived(&mut self, f: Field, t: String)
        ensures
            final(self)@ == old(self)@.with_derived(f, t@),
    {
        match f {
            Field::Chinese => self.chinese = t,
            Field::English => self.english = t,
            Field::Pinyin => self.pinyin = t,
        }
    }

    fn set_loading(&mut self, f: Field, b: bool)
        ensures
            final(self)@ == old(self)@.with_loading(f, b),
    {
        match f {
            Field::Chinese => self.loading_chinese = b,
            Field::English => self.loading_english = b,
            Field::Pinyin => self.loading_pinyin = b,
        }
    }

    /// The user typed `source` at `now` (milliseconds): it replaces the
    /// edited field and text, and every reply still in flight is superseded.
    pub fn set_source(&mut self, source: Source, now: u64)
        requires
            old(self)@.generation < u64::MAX,
        ensures
            final(self)@ == old(self)@.edited(source@, now),
            final(self)@.wf(),
    {
        self.source = source;
        self.generation = self.generation + 1;
        self.deadline = Some(now.saturating_add(DEBOUNCE_MS));
        self.loading_chinese = false;
        self.loading_english = false;
        self.loading_pinyin = false;
    }

    /// The timer is checked at `now`: once the last edit has rested for the
    /// debounce window, the first pass of translations is issued.
    pub fn tick(&mut self, now: u64) -> (r: Vec<DerivationRequest>)
        ensures
            final(self)@ == old(self)@.ticked(now),
            requests_view(r@) == old(self)@.tick_requests(now),
            old(self)@.wf() ==> final(self)@.wf(),
    {
        let due = match self.deadline {
            Some(d) => d <= now,
            None => false,
        };
        if !due {
            return Vec::new();
        }
        let typed = self.source.field();
        self.deadline = None;
        self.loading_chinese = typed != Field::Chinese;
        self.loading_english = typed == Field::Chinese;
        self.loading_pinyin = typed == Field::Chinese;
        let text = self.source.text();
        let g = self.generation;
        let mut out: Vec<DerivationRequest> = Vec::new();
        match typed {
            Field::Chinese => {
                out.push(
                    DerivationRequest {
                        from_text: text.clone(),
                        direction: Direction::ChineseToEnglish,
                        issued_at: g,
                    },
                );
                out.push(
                    DerivationRequest {
                        from_text: text.clone(),
                        direction: Direction::ChineseToPinyin,
                        issued_at: g,
                    },
                );
            },
            Field::English => {
                out.push(
                    DerivationRequest {
                        from_text: text.clone(),
                        direction: Direction::EnglishToChinese,
                        issued_at: g,
                    },
                );
            },
            Field::Pinyin => {
                out.push(
                    DerivationRequest {
                        from_text: text.clone(),
                        direction: Direction::PinyinToChinese,
                        issued_at: g,
                    },
                );
            },
        }
        assert(requests_view(out@) =~= old(self)@.tick_requests(now));
        out
    }
    /// A reply arrived for a request in direction `direction` issued at
    /// generation `issued_at`. A reply the engine is not waiting for is
    /// dropped without a trace. Otherwise the field shows the reply, or the
    /// fallback text for a failure; a Chinese text derived from English or
    /// Pinyin leads to the request for the remaining field, and where it
    /// failed that field shows the fallback text too.
    pub fn receive(&mut self, issued_at: u64, direction: Direction, reply: Result<String, UpstreamError>) -> (r:
        Option<DerivationRequest>)
        ensures
            final(self)@ == old(self)@.received(issued_at, direction, reply_view(reply)),
            r is Some <==> old(self)@.follow_up(issued_at, direction, reply_view(reply)) is Some,
            r matches Some(q) ==> old(self)@.follow_up(issued_at, direction, reply_view(reply))
                == Some(q@),
            old(self)@.wf() ==> final(self)@.wf(),
    {
        let target = direction.target();
        let typed = self.source.field();
        let routed = match route_of(typed, target) {
            Some(d) => d == direction,
            None => false,
        };
        if !(issued_at == self.generation && routed && self.is_loading(target)) {
            return None;
        }
        let follow = if typed == Field::English {
            Field::Pinyin
        } else {
            Field::English
        };
        match reply {
            Ok(text) => {
                let next = if target == Field::Chinese {
                    let d = match route_of(typed, follow) {
                        Some(d) => d,
                        None => Direction::ChineseToEnglish,
                    };
                    Some(DerivationRequest { from_text: text.clone(), direction: d, issued_at })
                } else {
                    None
                };
                self.set_derived(target, text);
                self.set_loading(target, false);
                if target == Field::Chinese {
                    self.set_loading(follow, true);
                }
                next
            },
            Err(_) => {
                self.set_derived(target, String::from_str(FALLBACK_TEXT));
                self.set_loading(target, false);
                if target == Field::Chinese {
                    self.set_derived(follow, String::from_str(FALLBACK_TEXT));
                }
                None
            },
        }
    }
}

/// Edits that follow each other within the debounce window lead to a single
/// derivation pass, for the last text only: checking the timer between the
/// edits or before the last edit has rested for the window issues nothing, the
/// first check after that issues the first pass for the last text, and later
/// checks issue nothing more.
pub proof fn lemma_debounce_single_pass(
    m: SyncModel,
    first: (Field, Seq<char>),
    second: (Field, Seq<char>),
    t1: u64,
    t2: u64,
)
    requires
        m.generation + 2 <= u64::MAX,
        t1 <= t2 < t1 + DEBOUNCE_MS,
        t2 + DEBOUNCE_MS <= u64::MAX,
    ensures
        ({
            let m1 = m.edited(first, t1);
            forall|t: u64|
                t < t2 ==> #[trigger] m1.tick_requests(t) == Seq::<DerivationView>::empty()
                    && m1.ticked(t) == m1
        }),
        ({
            let m2 = m.edited(first, t1).edited(second, t2);
            &&& forall|t: u64|
                t < t2 + DEBOUNCE_MS ==> #[trigger] m2.tick_requests(t)
                    == Seq::<DerivationView>::empty() && m2.ticked(t) == m2
            &&& forall|t: u64|
                t >= t2 + DEBOUNCE_MS ==> #[trigger] m2.tick_requests(t) == first_pass(
                    second,
                    m2.generation,
                )
            &&& forall|t: u64, u: u64|
                t >= t2 + DEBOUNCE_MS ==> #[trigger] m2.ticked(t).tick_requests(u)
                    == Seq::<DerivationView>::empty()
        }),
{
}

/// With Chinese typed, the first pass asks for its English and its Pinyin;
/// once both replies are taken, in either order, English shows the
/// Chinese-to-English reply, Pinyin the Chinese-to-Pinyin reply, and Chinese
/// still the typed text.
pub proof fn lemma_chinese_source_settles(
    m: SyncModel,
    text: Seq<char>,
    now: u64,
    english: Seq<char>,
    pinyin: Seq<char>,
)
    requires
        m.source == (Field::Chinese, text),
        m.due(now),
    ensures
        m.tick_requests(now) == seq![
            DerivationView { from_text: text, direction: Direction::ChineseToEnglish, issued_at: m.generation },
            DerivationView { from_text: text, direction: Direction::ChineseToPinyin, issued_at: m.generation },
        ],
        ({
            let g = m.generation;
            let a = m.ticked(now).received(g, Direction::ChineseToEnglish, Some(english)).received(
                g,
                Direction::ChineseToPinyin,
                Some(pinyin),
            );
            let b = m.ticked(now).received(g, Direction::ChineseToPinyin, Some(pinyin)).received(
                g,
                Direction::ChineseToEnglish,
                Some(english),
            );
            &&& a.display(Field::English) == english
            &&& a.display(Field::Pinyin) == pinyin
            &&& a.display(Field::Chinese) == text
            &&& !a.loading(Field::English) && !a.loading(Field::Pinyin)
            &&& b == a
        }),
{
}

/// Neither the timer nor any reply changes which field is edited or what it
/// shows.
pub proof fn lemma_typed_field_kept(
    m: SyncModel,
    now: u64,
    issued_at: u64,
    d: Direction,
    reply: Option<Seq<char>>,
)
    ensures
        m.ticked(now).source == m.source,
        m.ticked(now).display(m.source.0) == m.display(m.source.0),
        m.received(issued_at, d, reply).source == m.source,
        m.received(issued_at, d, reply).display(m.source.0) == m.display(m.source.0),
{
}

/// A reply to a request made before the latest edit changes nothing and leads
/// to no request, whenever it arrives.
pub proof fn lemma_stale_reply_dropped(
    m: SyncModel,
    src: (Field, Seq<char>),
    now: u64,
    d: Direction,
    reply: Option<Seq<char>>,
)
    requires
        m.generation < u64::MAX,
    ensures
        ({
            let e = m.edited(src, now);
            &&& e.received(m.generation, d, reply) == e
            &&& e.follow_up(m.generation, d, reply) is None
            &&& forall|t: u64|
                #[trigger] e.ticked(t).received(m.generation, d, reply) == e.ticked(t)
        }),
{
}

/// With Chinese typed, a failed translation into one of the other fields
/// shows the fallback text there and neither blocks nor fails the other: it
/// is still awaited, and its reply is shown when it comes.
pub proof fn lemma_failure_isolated(
    m: SyncModel,
    text: Seq<char>,
    now: u64,
    reply: Seq<char>,
)
    requires
        m.source == (Field::Chinese, text),
        m.due(now),
    ensures
        ({
            let g = m.generation;
            let f = m.ticked(now).received(g, Direction::ChineseToEnglish, None);
            &&& f.display(Field::English) == FALLBACK_TEXT@
            &&& f.loading(Field::Pinyin)
            &&& f.accepts(g, Direction::ChineseToPinyin)
            &&& f.received(g, Direction::ChineseToPinyin, Some(reply)).display(Field::Pinyin) == reply
        }),
        ({
            let g = m.generation;
            let f = m.ticked(now).received(g, Direction::ChineseToPinyin, None);
            &&& f.display(Field::Pinyin) == FALLBACK_TEXT@
            &&& f.loading(Field::English)
            &&& f.accepts(g, Direction::ChineseToEnglish)
            &&& f.received(g, Direction::ChineseToEnglish, Some(reply)).display(Field::English)
                == reply
        }),
{
}

} // verus!
