use manga_notifier::data_types::manga_types::{
    ChildTitle, Cover, CoverAttributes, CoverData, Manga, MangaAttributes, MangaData, Title,
};
use manga_notifier::manga_info_getter::{
    chapter_feed_url, cover_art_file_name, cover_url, last_chapter_info, search_url, FeedError,
};

fn entry(id: &str, chapter: Option<&str>, title: Title) -> MangaData {
    MangaData {
        attributes: MangaAttributes { chapter: chapter.map(|c| c.to_string()), title },
        id: id.to_string(),
        relationships: Vec::new(),
    }
}

#[test]
fn search_url_encodes_the_title() {
    assert_eq!(search_url("one piece"), "https://api.mangadex.org/manga?title=one%20piece");
    assert_eq!(search_url("naruto"), "https://api.mangadex.org/manga?title=naruto");
}

#[test]
fn cover_url_names_the_cover() {
    assert_eq!(cover_url("abc-123"), "https://api.mangadex.org/cover/abc-123");
}

#[test]
fn feed_url_asks_for_the_newest_chapters() {
    assert_eq!(
        chapter_feed_url("m1"),
        "https://api.mangadex.org/manga/m1/feed?translatedLanguage[]=pt-br&limit=96&includes[]=scanlation_group&includes[]=user&order[volume]=desc&order[chapter]=desc&offset=0&contentRating[]=safe&contentRating[]=suggestive&contentRating[]=erotica&contentRating[]=pornographic"
    );
}

#[test]
fn last_chapter_is_the_first_feed_entry() {
    let feed = Manga {
        data: vec![
            entry("c2", Some("12"), Title::TitleString("x".to_string())),
            entry("c1", Some("11"), Title::TitleString("x".to_string())),
        ],
    };
    let info = last_chapter_info(&feed).unwrap();
    assert_eq!(info.number, "12");
    assert_eq!(info.id, "c2");
}

#[test]
fn empty_feed_has_no_last_chapter() {
    let feed = Manga { data: Vec::new() };
    let err = last_chapter_info(&feed).unwrap_err();
    assert_eq!(err, FeedError::NoChapter);
    assert_eq!(err.message(), "Error trying to get last chapter");
}

#[test]
fn title_text_reads_both_forms() {
    assert_eq!(Title::TitleString("Bleach".to_string()).text(), "Bleach");
    assert_eq!(Title::Object(ChildTitle { en: "Monster".to_string() }).text(), "Monster");
}

#[test]
fn cover_file_name_is_read() {
    let cover = Cover {
        data: CoverData { attributes: CoverAttributes { file_name: "f.jpg".to_string() } },
    };
    assert_eq!(cover_art_file_name(&cover), "f.jpg");
}
