use manga_notifier::data_types::manga_types::{
    ChildTitle, LastChapterInfo, Manga as MangaList, MangaAttributes, MangaData, Title,
};
use manga_notifier::database::client_subscription::ClientSubscription;
use manga_notifier::database::manga::{Manga, VecManga};
use manga_notifier::handlers::{
    chapter_looked_up, help, list, receive_manga_index, receive_manga_to_remove_from_list,
    receive_search, receive_search_results, search, start, MangaChoice, RemovalChoice, Reply,
    SearchStep, State, Transition,
};

fn entry(id: &str, chapter: Option<&str>, title: Title) -> MangaData {
    MangaData {
        attributes: MangaAttributes { chapter: chapter.map(|c| c.to_string()), title },
        id: id.to_string(),
        relationships: Vec::new(),
    }
}

fn manga(id: &str, name: &str) -> Manga {
    Manga { manga_id: id.to_string(), name: name.to_string(), current_chapter: String::new() }
}

fn subscription(manga_id: &str, name: &str) -> ClientSubscription {
    ClientSubscription {
        manga_id: manga_id.to_string(),
        client_id: "77".to_string(),
        manga_name: Some(name.to_string()),
    }
}

fn offered() -> VecManga {
    VecManga { mangas: vec![manga("a", "Alpha"), manga("b", "Beta")] }
}

fn exits(r: &Reply) -> bool {
    matches!(r.transition, Transition::Exit)
}

#[test]
fn start_help_and_search() {
    let r = start();
    assert_eq!(r.messages, vec!["User aded to database. Type /help to see avaible commands"]);
    assert!(exits(&r));
    let r = help("/help - Shows the available commands".to_string());
    assert_eq!(r.messages, vec!["/help - Shows the available commands"]);
    assert!(exits(&r));
    let r = search();
    assert_eq!(r.messages, vec!["Type the name of the manga you want to search"]);
    assert!(matches!(r.transition, Transition::Update(State::ReceiveSearch)));
    assert!(matches!(State::default(), State::Start));
}

#[test]
fn search_needs_a_text() {
    match receive_search(None) {
        SearchStep::Respond(r) => {
            assert_eq!(r.messages, vec!["Type the name of manga you want to add"]);
            assert!(matches!(r.transition, Transition::Update(State::ReceiveSearch)));
        }
        SearchStep::Lookup(_) => panic!("no text to search"),
    }
    match receive_search(Some("one piece".to_string())) {
        SearchStep::Lookup(t) => assert_eq!(t, "one piece"),
        SearchStep::Respond(_) => panic!("a text is searched"),
    }
}

#[test]
fn failed_or_empty_search() {
    let r = receive_search_results(None);
    assert_eq!(r.messages, vec!["Failed to search manga"]);
    assert!(exits(&r));
    let r = receive_search_results(Some(MangaList { data: Vec::new() }));
    assert_eq!(r.messages, vec!["No manga found"]);
    assert!(exits(&r));
}

#[test]
fn search_results_are_listed_and_kept() {
    let found = MangaList {
        data: vec![
            entry("id1", Some("3"), Title::TitleString("Berserk".to_string())),
            entry("id2", None, Title::Object(ChildTitle { en: "Vagabond".to_string() })),
        ],
    };
    let r = receive_search_results(Some(found));
    assert_eq!(
        r.messages,
        vec![
            "Manga Found: \n1 - Berserk\n2 - Vagabond\n",
            "Type the number of the manga you want do add to your list or 0 to do nothing",
        ]
    );
    match r.transition {
        Transition::Update(State::ReceiveMangaIndex { avaible_mangas }) => {
            assert_eq!(avaible_mangas.mangas.len(), 2);
            assert_eq!(avaible_mangas.mangas[0].manga_id, "id1");
            assert_eq!(avaible_mangas.mangas[0].name, "Berserk");
            assert_eq!(avaible_mangas.mangas[0].current_chapter, "3");
            assert_eq!(avaible_mangas.mangas[1].manga_id, "id2");
            assert_eq!(avaible_mangas.mangas[1].name, "Vagabond");
            assert_eq!(avaible_mangas.mangas[1].current_chapter, "");
        }
        _ => panic!("the dialogue waits for a number"),
    }
}

#[test]
fn listed_number_picks_the_listed_manga() {
    match receive_manga_index(Some(" 2\n".to_string()), offered()) {
        MangaChoice::Add(m) => {
            assert_eq!(m.manga_id, "b");
            assert_eq!(m.name, "Beta");
        }
        MangaChoice::Respond(_) => panic!("2 picks the second manga"),
    }
    match receive_manga_index(Some("1".to_string()), offered()) {
        MangaChoice::Add(m) => assert_eq!(m.manga_id, "a"),
        MangaChoice::Respond(_) => panic!("1 picks the first manga"),
    }
}

#[test]
fn manga_index_refusals() {
    match receive_manga_index(None, offered()) {
        MangaChoice::Respond(r) => {
            assert_eq!(r.messages, vec!["Type the number of manga you want to add"]);
            match r.transition {
                Transition::Update(State::ReceiveMangaIndex { avaible_mangas }) => {
                    assert_eq!(avaible_mangas.mangas.len(), 2)
                }
                _ => panic!("asked again"),
            }
        }
        MangaChoice::Add(_) => panic!("nothing picked"),
    }
    match receive_manga_index(Some("two".to_string()), offered()) {
        MangaChoice::Respond(r) => {
            assert_eq!(r.messages, vec!["Please enter a valid number"]);
            assert!(matches!(r.transition, Transition::Update(State::ReceiveMangaIndex { .. })));
        }
        MangaChoice::Add(_) => panic!("nothing picked"),
    }
    match receive_manga_index(Some("0".to_string()), offered()) {
        MangaChoice::Respond(r) => {
            assert_eq!(r.messages, vec!["Quiting withount doing anything"]);
            assert!(exits(&r));
        }
        MangaChoice::Add(_) => panic!("0 picks nothing"),
    }
    match receive_manga_index(Some("3".to_string()), offered()) {
        MangaChoice::Respond(r) => {
            assert_eq!(r.messages, vec!["Type the correct number of manga"]);
            assert!(exits(&r));
        }
        MangaChoice::Add(_) => panic!("3 is past the list"),
    }
}

#[test]
fn found_chapter_stores_the_manga_and_the_subscription() {
    let picked = match receive_manga_index(Some("2".to_string()), offered()) {
        MangaChoice::Add(m) => m,
        MangaChoice::Respond(_) => panic!("2 picks the second manga"),
    };
    let info = LastChapterInfo { number: "5".to_string(), id: "c5".to_string() };
    let f = chapter_looked_up(picked, "7".to_string(), Some(info));
    assert_eq!(f.manga_row, Some(("b".to_string(), "Beta".to_string(), "5".to_string())));
    assert_eq!(f.subscription, Some(("b".to_string(), "7".to_string())));
    assert_eq!(f.reply.messages, vec!["Manga inserted"]);
    assert!(exits(&f.reply));
}

#[test]
fn failed_lookup_stores_nothing() {
    let f = chapter_looked_up(manga("a", "Alpha"), "7".to_string(), None);
    assert_eq!(f.manga_row, None);
    assert_eq!(f.subscription, None);
    assert!(f.reply.messages.is_empty());
    assert!(exits(&f.reply));
}

#[test]
fn subscriptions_are_listed() {
    let r = list(None);
    assert_eq!(r.messages, vec!["No manga found in your list"]);
    assert!(exits(&r));
    let r = list(Some(vec![subscription("a", "Alpha"), subscription("b", "Beta")]));
    assert_eq!(
        r.messages,
        vec![
            "Manga in your list: \n1 - Alpha\n2 - Beta\n",
            "Type the number of the manga you want to remove or 0 to do nothing",
        ]
    );
    match r.transition {
        Transition::Update(State::ReceiveMangaToRemoveFromList { subscriptions }) => {
            assert_eq!(subscriptions.len(), 2)
        }
        _ => panic!("the dialogue waits for a number"),
    }
    let r = list(Some(Vec::new()));
    assert_eq!(
        r.messages,
        vec![
            "Manga in your list: \n",
            "Type the number of the manga you want to remove or 0 to do nothing",
        ]
    );
}

#[test]
fn subscription_removal() {
    let subs = || vec![subscription("a", "Alpha"), subscription("b", "Beta")];
    match receive_manga_to_remove_from_list(Some("2".to_string()), subs()) {
        RemovalChoice::Remove(s, r) => {
            assert_eq!(s.manga_id, "b");
            assert_eq!(s.client_id, "77");
            assert_eq!(r.messages, vec!["Manga removed from list"]);
            assert!(exits(&r));
        }
        RemovalChoice::Respond(_) => panic!("2 removes the second"),
    }
    match receive_manga_to_remove_from_list(None, subs()) {
        RemovalChoice::Respond(r) => {
            assert_eq!(r.messages, vec!["Type the number of manga you want to remove"]);
            assert!(matches!(
                r.transition,
                Transition::Update(State::ReceiveMangaToRemoveFromList { .. })
            ));
        }
        RemovalChoice::Remove(..) => panic!("nothing picked"),
    }
    match receive_manga_to_remove_from_list(Some("-1".to_string()), subs()) {
        RemovalChoice::Respond(r) => assert_eq!(r.messages, vec!["Please enter a valid number"]),
        RemovalChoice::Remove(..) => panic!("nothing picked"),
    }
    match receive_manga_to_remove_from_list(Some("0".to_string()), subs()) {
        RemovalChoice::Respond(r) => {
            assert_eq!(r.messages, vec!["Quiting withount doing anything"]);
            assert!(exits(&r));
        }
        RemovalChoice::Remove(..) => panic!("0 removes nothing"),
    }
    match receive_manga_to_remove_from_list(Some("9".to_string()), subs()) {
        RemovalChoice::Respond(r) => {
            assert_eq!(r.messages, vec!["Type the correct number of manga"]);
            assert!(exits(&r));
        }
        RemovalChoice::Remove(..) => panic!("9 is past the list"),
    }
}
