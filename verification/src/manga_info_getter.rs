//! The requests that the bot sends to the MangaDex API, and what it reads
//! from the answers.
use vstd::prelude::*;
use vstd::string::*;
use crate::data_types::manga_types::{Cover, LastChapterInfo, Manga};
use crate::text::{encode_spaces, encode_spaces_in};

verus! {

/// The address of a search for mangas by title; spaces in the title are
/// sent as `%20`.
pub open spec fn search_url_of(title: Seq<char>) -> Seq<char> {
    "https://api.mangadex.org/manga?title="@ + encode_spaces(title)
}

/// The address of a cover.
pub open spec fn cover_url_of(cover_art_id: Seq<char>) -> Seq<char> {
    "https://api.mangadex.org/cover/"@ + cover_art_id
}

/// The query that follows a manga's id in the address of its chapter feed:
/// Brazilian Portuguese chapters, newest volume and chapter first.
pub open spec fn feed_query() -> Seq<char> {
    "/feed?translatedLanguage[]=pt-br&limit=96&includes[]=scanlation_group&includes[]=user&order[volume]=desc&order[chapter]=desc&offset=0&contentRating[]=safe&contentRating[]=suggestive&contentRating[]=erotica&contentRating[]=pornographic"@
}

/// The address of a manga's chapter feed.
pub open spec fn chapter_feed_url_of(manga_id: Seq<char>) -> Seq<char> {
    "https://api.mangadex.org/manga/"@ + manga_id + feed_query()
}

/// The address of a search for mangas whose title matches `title`.
pub fn search_url(title: &str) -> (url: String)
    ensures
        url@ == search_url_of(title@),
{
    let mut url = String::from_str("https://api.mangadex.org/manga?title=");
    let encoded = encode_spaces_in(title);
    url.append(encoded.as_str());
    url
}

/// The address of the cover with the given id.
pub fn cover_url(cover_art_id: &str) -> (url: String)
    ensures
        url@ == cover_url_of(cover_art_id@),
{
    let mut url = String::from_str("https://api.mangadex.org/cover/");
    url.append(cover_art_id);
    url
}

/// The address of the chapter feed of the manga with the given id.
pub fn chapter_feed_url(manga_id: &str) -> (url: String)
    ensures
        url@ == chapter_feed_url_of(manga_id@),
{
    let mut url = String::from_str("https://api.mangadex.org/manga/");
    url.append(manga_id);
    url.append(
        "/feed?translatedLanguage[]=pt-br&limit=96&includes[]=scanlation_group&includes[]=user&order[volume]=desc&order[chapter]=desc&offset=0&contentRating[]=safe&contentRating[]=suggestive&contentRating[]=erotica&contentRating[]=pornographic",
    );
    url
}

/// Why no latest chapter could be read from a feed.
#[derive(Debug, Clone, Copy, PartialEq, Eq)]
pub enum FeedError {
    /// The feed lists no chapter.
    NoChapter,
}

impl FeedError {
    /// The text of the error.
    pub fn message(&self) -> (s: String)
        ensures
            s@ == "Error trying to get last chapter"@,
    {
        String::from_str("Error trying to get last chapter")
    }
}

/// The latest chapter of a chapter feed: the first entry of the feed, newest
/// first, with its chapter number and id. A feed without entries has none.
/// An entry of a feed is a chapter, which has a number.
pub fn last_chapter_info(feed: &Manga) -> (r: Result<LastChapterInfo, FeedError>)
    requires
        feed.data.len() > 0 ==> feed.data[0].attributes.chapter is Some,
    ensures
        feed.data.len() == 0 <==> r == Err::<LastChapterInfo, FeedError>(FeedError::NoChapter),
        r matches Ok(info) ==> {
            &&& info.number@ == feed.data[0].attributes.chapter->0@
            &&& info.id@ == feed.data[0].id@
        },
{
    if feed.data.len() == 0 {
        return Err(FeedError::NoChapter);
    }
    let first = &feed.data[0];
    let number = match &first.attributes.chapter {
        Some(chapter) => chapter.clone(),
        None => String::new(),
    };
    Ok(LastChapterInfo { number, id: first.id.clone() })
}

/// The file name of the cover that a cover request answered.
pub fn cover_art_file_name(cover: &Cover) -> (name: String)
    ensures
        name@ == cover.data.attributes.file_name@,
{
    cover.data.attributes.file_name.clone()
}


/// The feed address is the base, then the whole manga id, then the query.
pub proof fn lemma_feed_url_holds_whole_id(manga_id: Seq<char>)
    ensures
        ({
            let url = chapter_feed_url_of(manga_id);
            &&& url.len() == 31 + manga_id.len() + feed_query().len()
            &&& url.subrange(0, 31) == "https://api.mangadex.org/manga/"@
            &&& url.subrange(31, 31 + manga_id.len() as int) == manga_id
            &&& url.subrange(31 + manga_id.len() as int, url.len() as int) == feed_query()
        }),
{
    reveal_strlit("https://api.mangadex.org/manga/");
    let base = "https://api.mangadex.org/manga/"@;
    let url = chapter_feed_url_of(manga_id);
    assert(url.subrange(0, 31) =~= base);
    assert(url.subrange(31, 31 + manga_id.len() as int) =~= manga_id);
    assert(url.subrange(31 + manga_id.len() as int, url.len() as int) =~= feed_query());
}

/// The cover address is the base followed by the whole cover id.
pub proof fn lemma_cover_url_holds_whole_id(cover_art_id: Seq<char>)
    ensures
        ({
            let url = cover_url_of(cover_art_id);
            &&& url.len() == 31 + cover_art_id.len()
            &&& url.subrange(0, 31) == "https://api.mangadex.org/cover/"@
            &&& url.subrange(31, url.len() as int) == cover_art_id
        }),
{
    reveal_strlit("https://api.mangadex.org/cover/");
    let url = cover_url_of(cover_art_id);
    assert(url.subrange(0, 31) =~= "https://api.mangadex.org/cover/"@);
    assert(url.subrange(31, url.len() as int) =~= cover_art_id);
}

/// The search address is the base followed by the encoded title; a title
/// without spaces is sent as it is, and the address holds no space.
pub proof fn lemma_search_url_holds_title(title: Seq<char>)
    ensures
        ({
            let url = search_url_of(title);
            &&& url.subrange(0, 37) == "https://api.mangadex.org/manga?title="@
            &&& url.subrange(37, url.len() as int) == encode_spaces(title)
            &&& !title.contains(' ') ==> url.subrange(37, url.len() as int) == title
        }),
{
    reveal_strlit("https://api.mangadex.org/manga?title=");
    let url = search_url_of(title);
    assert(url.subrange(0, 37) =~= "https://api.mangadex.org/manga?title="@);
    assert(url.subrange(37, url.len() as int) =~= encode_spaces(title));
    if !title.contains(' ') {
        crate::text::lemma_encode_without_spaces(title);
    }
}

} // verus!
