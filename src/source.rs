use vstd::prelude::*;

verus! {

/// One of the three text fields kept in step with each other.
#[derive(Clone, Copy, Debug, PartialEq, Eq, Structural)]
pub enum Field {
    Chinese,
    English,
    Pinyin,
}

/// One of the four fixed translation directions.
#[derive(Clone, Copy, Debug, PartialEq, Eq, Structural)]
pub enum Direction {
    ChineseToEnglish,
    EnglishToChinese,
    ChineseToPinyin,
    PinyinToChinese,
}

impl Direction {
    /// The field whose text a translation in this direction reads.
    pub open spec fn spec_origin(self) -> Field {
        match self {
            Direction::ChineseToEnglish => Field::Chinese,
            Direction::EnglishToChinese => Field::English,
            Direction::ChineseToPinyin => Field::Chinese,
            Direction::PinyinToChinese => Field::Pinyin,
        }
    }

    /// The field that a translation in this direction fills.
    pub open spec fn spec_target(self) -> Field {
        match self {
            Direction::ChineseToEnglish => Field::English,
            Direction::EnglishToChinese => Field::Chinese,
            Direction::ChineseToPinyin => Field::Pinyin,
            Direction::PinyinToChinese => Field::Chinese,
        }
    }

    pub fn origin(self) -> (r: Field)
        ensures
            r == self.spec_origin(),
    {
        match self {
            Direction::ChineseToEnglish => Field::Chinese,
            Direction::EnglishToChinese => Field::English,
            Direction::ChineseToPinyin => Field::Chinese,
            Direction::PinyinToChinese => Field::Pinyin,
        }
    }

    pub fn target(self) -> (r: Field)
        ensures
            r == self.spec_target(),
    {
        match self {
            Direction::ChineseToEnglish => Field::English,
            Direction::EnglishToChinese => Field::Chinese,
            Direction::ChineseToPinyin => Field::Pinyin,
            Direction::PinyinToChinese => Field::Chinese,
        }
    }
}

/// The direction through which `target` is derived while `typed` holds the
/// user's text. Chinese is the intermediate: it comes from whatever field was
/// typed, and English and Pinyin always come from Chinese. The typed field
/// itself is never derived.
pub open spec fn route(typed: Field, target: Field) -> Option<Direction> {
    match (typed, target) {
        (Field::Chinese, Field::English) => Some(Direction::ChineseToEnglish),
        (Field::Chinese, Field::Pinyin) => Some(Direction::ChineseToPinyin),
        (Field::English, Field::Chinese) => Some(Direction::EnglishToChinese),
        (Field::English, Field::Pinyin) => Some(Direction::ChineseToPinyin),
        (Field::Pinyin, Field::Chinese) => Some(Direction::PinyinToChinese),
        (Field::Pinyin, Field::English) => Some(Direction::ChineseToEnglish),
        _ => None,
    }
}

/// The field the user is editing, with exactly the text typed into it.
#[derive(Debug, Clone, PartialEq, Eq)]
pub enum Source {
    Chinese(String),
    English(String),
    Pinyin(String),
}

impl View for Source {
    type V = (Field, Seq<char>);

    open spec fn view(&self) -> (Field, Seq<char>) {
        match self {
            Source::Chinese(t) => (Field::Chinese, t@),
            Source::English(t) => (Field::English, t@),
            Source::Pinyin(t) => (Field::Pinyin, t@),
        }
    }
}

impl Source {
    /// A source for `field` holding `text`.
    pub fn new(field: Field, text: String) -> (r: Source)
        ensures
            r@ == (field, text@),
    {
        match field {
            Field::Chinese => Source::Chinese(text),
            Field::English => Source::English(text),
            Field::Pinyin => Source::Pinyin(text),
        }
    }

    pub fn field(&self) -> (r: Field)
        ensures
            r == self@.0,
    {
        match self {
            Source::Chinese(_) => Field::Chinese,
            Source::English(_) => Field::English,
            Source::Pinyin(_) => Field::Pinyin,
        }
    }

    pub fn text(&self) -> (r: &String)
        ensures
            r@ == self@.1,
    {
        match self {
            Source::Chinese(t) => t,
            Source::English(t) => t,
            Source::Pinyin(t) => t,
        }
    }

    /// The typed text if `field` is the one being edited.
    pub fn text_of(&self, field: Field) -> (r: Option<&String>)
        ensures
            r is Some <==> self@.0 == field,
            r matches Some(t) ==> t@ == self@.1,
    {
        if self.field() == field {
            Some(self.text())
        } else {
            None
        }
    }

    pub fn as_chinese(&self) -> (r: Option<&String>)
        ensures
            r is Some <==> self@.0 == Field::Chinese,
            r matches Some(t) ==> t@ == self@.1,
    {
        self.text_of(Field::Chinese)
    }

    pub fn as_english(&self) -> (r: Option<&String>)
        ensures
            r is Some <==> self@.0 == Field::English,
            r matches Some(t) ==> t@ == self@.1,
    {
        self.text_of(Field::English)
    }

    pub fn as_pinyin(&self) -> (r: Option<&String>)
        ensures
            r is Some <==> self@.0 == Field::Pinyin,
            r matches Some(t) ==> t@ == self@.1,
    {
        self.text_of(Field::Pinyin)
    }
}

/// Exec form of `route`.
pub fn route_of(typed: Field, target: Field) -> (r: Option<Direction>)
    ensures
        r == route(typed, target),
{
    match (typed, target) {
        (Field::Chinese, Field::English) => Some(Direction::ChineseToEnglish),
        (Field::Chinese, Field::Pinyin) => Some(Direction::ChineseToPinyin),
        (Field::English, Field::Chinese) => Some(Direction::EnglishToChinese),
        (Field::English, Field::Pinyin) => Some(Direction::ChineseToPinyin),
        (Field::Pinyin, Field::Chinese) => Some(Direction::PinyinToChinese),
        (Field::Pinyin, Field::English) => Some(Direction::ChineseToEnglish),
        _ => None,
    }
}

} // verus!
