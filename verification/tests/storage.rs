use manga_notifier::database::client_subscription::needs_subscription;
use manga_notifier::data_types::manga_types::LastChapterInfo;
use manga_notifier::database::client::needs_registration;
use manga_notifier::database::manga::{plan_chapter_write, ChapterWrite, VecManga};
use manga_notifier::polling::{chapter_update_needed, release_message};

#[test]
fn a_known_user_is_not_stored_again() {
    let clients = vec!["1".to_string(), "22".to_string()];
    assert!(!needs_registration(&clients, &"22".to_string()));
    assert!(needs_registration(&clients, &"2".to_string()));
    assert!(needs_registration(&Vec::new(), &"5".to_string()));
}

#[test]
fn registering_twice_stores_once() {
    let mut clients: Vec<String> = Vec::new();
    for _ in 0..2 {
        let id = "42".to_string();
        if needs_registration(&clients, &id) {
            clients.push(id);
        }
    }
    assert_eq!(clients, vec!["42".to_string()]);
}

#[test]
fn chapter_write_inserts_updates_or_keeps() {
    let current = "10".to_string();
    assert_eq!(plan_chapter_write(None, &current), ChapterWrite::Insert);
    assert_eq!(plan_chapter_write(Some(&"9".to_string()), &current), ChapterWrite::Update);
    assert_eq!(plan_chapter_write(Some(&"10".to_string()), &current), ChapterWrite::Keep);
}

#[test]
fn empty_manga_list() {
    assert!(VecManga::new().mangas.is_empty());
}

#[test]
fn new_chapter_is_found_only_when_both_are_read_and_differ() {
    let info = LastChapterInfo { number: "5".to_string(), id: "abc".to_string() };
    assert!(chapter_update_needed(Some(&"4".to_string()), Some(&info)));
    assert!(!chapter_update_needed(Some(&"5".to_string()), Some(&info)));
    assert!(!chapter_update_needed(None, Some(&info)));
    assert!(!chapter_update_needed(Some(&"4".to_string()), None));
}

#[test]
fn new_chapter_is_announced_once() {
    let info = LastChapterInfo { number: "5".to_string(), id: "abc".to_string() };
    let mut stored = "4".to_string();
    let mut announced = 0;
    for _ in 0..2 {
        if chapter_update_needed(Some(&stored), Some(&info)) {
            stored = info.number.clone();
            announced += 1;
        }
    }
    assert_eq!(announced, 1);
}

#[test]
fn release_message_links_the_chapter() {
    let info = LastChapterInfo { number: "105".to_string(), id: "ch-9".to_string() };
    assert_eq!(
        release_message(&info),
        "Chapter 105 released. Link to read: https://mangadex.org/chapter/ch-9"
    );
}

#[test]
fn a_stored_subscription_is_not_stored_again() {
    let mut stored: Vec<(String, String)> = vec![("m1".to_string(), "7".to_string())];
    assert!(!needs_subscription(&stored, &"m1".to_string(), &"7".to_string()));
    assert!(needs_subscription(&stored, &"m1".to_string(), &"8".to_string()));
    assert!(needs_subscription(&stored, &"m2".to_string(), &"7".to_string()));
    for _ in 0..2 {
        let (m, c) = ("m2".to_string(), "7".to_string());
        if needs_subscription(&stored, &m, &c) {
            stored.push((m, c));
        }
    }
    assert_eq!(stored.len(), 2);
}
