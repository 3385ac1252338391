//! MangaDex answers as plain values: a list of mangas (a search or a
//! chapter feed), a cover, and what the bot keeps of a chapter.
use vstd::prelude::*;

verus! {

/// The answer to a manga search.
#[derive(Debug, Clone)]
pub struct SearchedManga {
    pub data: Vec<MangaData>,
}

/// A list of manga entries: the answer to a search or to a chapter feed.
#[derive(Debug, Clone)]
pub struct Manga {
    pub data: Vec<MangaData>,
}

/// One entry of a list: its id, its attributes and its relationships.
#[derive(Debug, Clone)]
pub struct MangaData {
    pub attributes: MangaAttributes,
    pub id: String,
    pub relationships: Vec<Relationship>,
}

/// The chapter number (where the entry is a chapter) and the title.
#[derive(Debug, Clone)]
pub struct MangaAttributes {
    pub chapter: Option<String>,
    pub title: Title,
}

/// A link from an entry to another object, by the object's id and kind.
#[derive(Debug, Clone)]
pub struct Relationship {
    pub id: String,
    pub typ: String,
}

/// The answer to a cover request.
#[derive(Debug, Clone)]
pub struct Cover {
    pub data: CoverData,
}

#[derive(Debug, Clone)]
pub struct CoverData {
    pub attributes: CoverAttributes,
}

/// The file name of a cover image.
#[derive(Debug, Clone)]
pub struct CoverAttributes {
    pub file_name: String,
}

/// A title: either a plain string or an object with an English title.
#[derive(Debug, Clone)]
pub enum Title {
    TitleString(String),
    Object(ChildTitle),
}

/// A title object, of which the bot reads the English title.
#[derive(Debug, Clone)]
pub struct ChildTitle {
    pub en: String,
}

/// The latest chapter of a manga: its number and its id.
#[derive(Debug, Clone)]
pub struct LastChapterInfo {
    pub number: String,
    pub id: String,
}

impl Title {
    /// The text that the bot shows for a title.
    pub open spec fn shown(&self) -> Seq<char> {
        match self {
            Title::TitleString(title) => title@,
            Title::Object(child_title) => child_title.en@,
        }
    }

    /// The text that the bot shows for a title: the string itself, or the
    /// English title of a title object.
    pub fn text(&self) -> (s: String)
        ensures
            s@ == self.shown(),
    {
        match self {
            Title::TitleString(title) => title.clone(),
            Title::Object(child_title) => child_title.en.clone(),
        }
    }
}

} // verus!
