//! The hourly check of every followed manga: when the latest chapter that
//! MangaDex lists differs from the stored one, the bot stores the new one
//! and tells the manga's subscribers.
use vstd::prelude::*;
use vstd::string::*;
use crate::data_types::manga_types::LastChapterInfo;

verus! {

/// Whether a check finds a new chapter: both the stored chapter and the
/// latest chapter could be read, and they differ.
pub open spec fn update_needed(stored: Option<Seq<char>>, fetched: Option<Seq<char>>) -> bool {
    &&& stored is Some
    &&& fetched is Some
    &&& stored->0 != fetched->0
}

/// The chapter that a check leaves stored.
pub open spec fn stored_after_check(stored: Option<Seq<char>>, fetched: Option<Seq<char>>) -> Option<
    Seq<char>,
> {
    if update_needed(stored, fetched) {
        fetched
    } else {
        stored
    }
}

/// The message that tells a subscriber about a new chapter.
pub open spec fn release_message_of(number: Seq<char>, chapter_id: Seq<char>) -> Seq<char> {
    "Chapter "@ + number + " released. Link to read: https://mangadex.org/chapter/"@ + chapter_id
}

/// Decides whether a check found a new chapter, given the stored chapter
/// and the latest chapter (each `None` where it could not be read).
pub fn chapter_update_needed(stored: Option<&String>, fetched: Option<&LastChapterInfo>) -> (r: bool)
    ensures
        r == update_needed(
            match stored {
                Some(s) => Some(s@),
                None => None,
            },
            match fetched {
                Some(f) => Some(f.number@),
                None => None,
            },
        ),
{
    match (stored, fetched) {
        (Some(chapter), Some(info)) => !(*chapter == info.number),
        _ => false,
    }
}

/// The message that tells a subscriber about a new chapter, with a link to it.
pub fn release_message(info: &LastChapterInfo) -> (m: String)
    ensures
        m@ == release_message_of(info.number@, info.id@),
{
    let mut m = String::from_str("Chapter ");
    m.append(info.number.as_str());
    m.append(" released. Link to read: https://mangadex.org/chapter/");
    m.append(info.id.as_str());
    m
}

/// A chapter is announced once: after a check has stored what it found, a
/// second check that finds the same chapter announces nothing.
pub proof fn lemma_new_chapter_announced_once(stored: Option<Seq<char>>, fetched: Option<Seq<char>>)
    ensures
        !update_needed(stored_after_check(stored, fetched), fetched),
{
}


/// Where both chapters were read, a new chapter is found exactly when the
/// two differ, and the check then stores the one it fetched; where either
/// could not be read, nothing is found and nothing changes.
pub proof fn lemma_differing_chapter_is_found(stored: Seq<char>, fetched: Seq<char>)
    ensures
        update_needed(Some(stored), Some(fetched)) == (stored != fetched),
        stored_after_check(Some(stored), Some(fetched)) == Some(fetched),
        !update_needed(None, Some(fetched)),
        !update_needed(Some(stored), None),
        stored_after_check(None, Some(fetched)) == None::<Seq<char>>,
        stored_after_check(Some(stored), None) == Some(stored),
{
}

/// The release message is "Chapter ", the whole chapter number, the text
/// before the link, and the whole chapter id at its end.
pub proof fn lemma_release_message_links_whole_id(number: Seq<char>, chapter_id: Seq<char>)
    ensures
        ({
            let m = release_message_of(number, chapter_id);
            &&& m.len() == 62 + number.len() + chapter_id.len()
            &&& m.subrange(0, 8) == seq!['C', 'h', 'a', 'p', 't', 'e', 'r', ' ']
            &&& m.subrange(8, 8 + number.len() as int) == number
            &&& m.subrange(8 + number.len() as int, 62 + number.len() as int)
                == " released. Link to read: https://mangadex.org/chapter/"@
            &&& m.subrange(62 + number.len() as int, m.len() as int) == chapter_id
        }),
{
    reveal_strlit("Chapter ");
    reveal_strlit(" released. Link to read: https://mangadex.org/chapter/");
    let head = "Chapter "@;
    let mid = " released. Link to read: https://mangadex.org/chapter/"@;
    let m = release_message_of(number, chapter_id);
    assert(m == head + number + mid + chapter_id);
    assert(m.subrange(0, 8) =~= head);
    assert(m.subrange(8, 8 + number.len() as int) =~= number);
    assert(m.subrange(8 + number.len() as int, 62 + number.len() as int) =~= mid);
    assert(m.subrange(62 + number.len() as int, m.len() as int) =~= chapter_id);
}

} // verus!
