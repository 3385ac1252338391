//! The mangas that the bot follows, each with the latest chapter it knows.
use vstd::prelude::*;

verus! {

/// A manga: its id, its name and the latest chapter known of it.
#[derive(Debug, Clone)]
pub struct Manga {
    pub manga_id: String,
    pub name: String,
    pub current_chapter: String,
}

/// The mangas that a search offered, in the order in which they were shown.
#[derive(Debug, Clone)]
pub struct VecManga {
    pub mangas: Vec<Manga>,
}

impl VecManga {
    /// An empty list.
    pub fn new() -> (r: VecManga)
        ensures
            r.mangas@.len() == 0,
    {
        VecManga { mangas: Vec::new() }
    }
}

/// What storing a manga's latest chapter writes to the manga table.
#[derive(Debug, Clone, Copy, PartialEq, Eq)]
pub enum ChapterWrite {
    /// The manga is not in the table: insert it.
    Insert,
    /// The manga is stored with another chapter: update the chapter.
    Update,
    /// The manga is stored with this chapter: write nothing.
    Keep,
}

/// The write that stores `current_chapter`, given the chapter stored, if any.
pub open spec fn chapter_write(stored: Option<Seq<char>>, current_chapter: Seq<char>) -> ChapterWrite {
    match stored {
        None => ChapterWrite::Insert,
        Some(chapter) => if chapter == current_chapter {
            ChapterWrite::Keep
        } else {
            ChapterWrite::Update
        },
    }
}

/// The chapter stored after a write: an insert stores the chapter where the
/// manga was not in the table (the id is the table's key, so an insert of a
/// stored manga is refused); an update changes the chapter of a stored manga
/// and finds nothing to change where the manga is not in the table.
pub open spec fn stored_after(
    stored: Option<Seq<char>>,
    write: ChapterWrite,
    current_chapter: Seq<char>,
) -> Option<Seq<char>> {
    match write {
        ChapterWrite::Keep => stored,
        ChapterWrite::Insert => if stored is None {
            Some(current_chapter)
        } else {
            stored
        },
        ChapterWrite::Update => if stored is Some {
            Some(current_chapter)
        } else {
            None
        },
    }
}

/// Decides how to store a manga's latest chapter, given what the table
/// holds for it (`None` where the manga is not in the table).
pub fn plan_chapter_write(stored: Option<&String>, current_chapter: &String) -> (w: ChapterWrite)
    ensures
        w == chapter_write(
            match stored {
                Some(s) => Some(s@),
                None => None,
            },
            current_chapter@,
        ),
{
    match stored {
        None => ChapterWrite::Insert,
        Some(chapter) => if *chapter == *current_chapter {
            ChapterWrite::Keep
        } else {
            ChapterWrite::Update
        },
    }
}

/// Whatever the table held, after the planned write it holds the chapter
/// that was stored; and it writes nothing where it held that chapter already.
pub proof fn lemma_chapter_write_stores_current(stored: Option<Seq<char>>, current_chapter: Seq<char>)
    ensures
        stored_after(stored, chapter_write(stored, current_chapter), current_chapter) == Some(
            current_chapter,
        ),
        stored == Some(current_chapter) ==> chapter_write(stored, current_chapter)
            == ChapterWrite::Keep,
{
}


/// A manga not yet in the table is inserted, whatever its chapter; a stored
/// manga is never inserted again; its chapter is written only where it
/// differs from the stored one.
pub proof fn lemma_chapter_write_cases(stored: Option<Seq<char>>, current_chapter: Seq<char>)
    ensures
        stored is None ==> chapter_write(stored, current_chapter) == ChapterWrite::Insert,
        stored is Some ==> chapter_write(stored, current_chapter) != ChapterWrite::Insert,
        (chapter_write(stored, current_chapter) == ChapterWrite::Keep) == (stored == Some(
            current_chapter,
        )),
{
}

} // verus!
