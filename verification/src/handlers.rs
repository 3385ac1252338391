//! The dialogue with a user: for each command and each answer, what the bot
//! replies and where the dialogue goes next. Sending the replies, storing
//! the dialogue and talking to MangaDex and to the database are left to the
//! caller, which hands back what it found.
use vstd::prelude::*;
use vstd::string::*;
use crate::data_types::manga_types::{LastChapterInfo, Manga as MangaList, MangaData};
use crate::database::client_subscription::ClientSubscription;
use crate::database::manga::{Manga, VecManga};
use crate::text::{append_decimal, decimal, typed_index, typed_number};

verus! {

/// Where a user's dialogue with the bot stands.
#[derive(Clone)]
pub enum State {
    Start,
    Help,
    List,
    /// The user was shown the subscriptions and may pick one to remove.
    ReceiveMangaToRemoveFromList { subscriptions: Vec<ClientSubscription> },
    Search,
    /// The user was asked for a title to search.
    ReceiveSearch,
    /// The user was shown the search results and may pick one to follow.
    ReceiveMangaIndex { avaible_mangas: VecManga },
}

impl Default for State {
    fn default() -> (s: State)
        ensures
            s is Start,
    {
        State::Start
    }
}

/// What becomes of the dialogue after a reply.
pub enum Transition {
    /// The dialogue ends.
    Exit,
    /// The dialogue waits in the given state.
    Update(State),
}

/// The messages that the bot sends, in order, and what becomes of the dialogue.
pub struct Reply {
    pub messages: Vec<String>,
    pub transition: Transition,
}

/// The texts of a list of messages.
pub open spec fn texts(messages: Seq<String>) -> Seq<Seq<char>> {
    messages.map_values(|m: String| m@)
}

/// The text of a message, if there is one.
pub open spec fn text_of(text: Option<String>) -> Option<Seq<char>> {
    match text {
        Some(t) => Some(t@),
        None => None,
    }
}

/// A line of a numbered list: the number, a dash, the name.
pub open spec fn listing_line(k: nat, name: Seq<char>) -> Seq<char> {
    decimal(k) + " - "@ + name + "\n"@
}

/// The numbered list of `names`, numbered from one.
pub open spec fn listing(names: Seq<Seq<char>>) -> Seq<char>
    decreases names.len(),
{
    if names.len() == 0 {
        Seq::empty()
    } else {
        listing(names.drop_last()) + listing_line(names.len(), names.last())
    }
}

/// The titles that a search lists, in order.
pub open spec fn titles(data: Seq<MangaData>) -> Seq<Seq<char>> {
    data.map_values(|d: MangaData| d.attributes.title.shown())
}

/// The names of the mangas that a user follows, in order.
pub open spec fn subscription_names(subscriptions: Seq<ClientSubscription>) -> Seq<Seq<char>> {
    subscriptions.map_values(|s: ClientSubscription| s.manga_name->0@)
}

/// The chapter that a search result carries, or the empty string.
pub open spec fn chapter_or_empty(chapter: Option<String>) -> Seq<char> {
    match chapter {
        Some(c) => c@,
        None => Seq::empty(),
    }
}

/// The manga that the bot keeps of a search result.
pub open spec fn offered(m: Manga, d: MangaData) -> bool {
    &&& m.manga_id@ == d.id@
    &&& m.name@ == d.attributes.title.shown()
    &&& m.current_chapter@ == chapter_or_empty(d.attributes.chapter)
}

/// How a user's answer to a numbered list reads.
pub enum Selection {
    /// The message has no text.
    Missing,
    /// The text is not a number.
    NotANumber,
    /// The number is 0.
    Cancel,
    /// The number picks the entry at this position (counted from 0).
    Entry(usize),
    /// The number is past the end of the list.
    OutOfRange,
}

/// How the answer `text` to a list of `len` entries reads: the trimmed
/// text as a number, where `k` picks the `k`-th entry and 0 cancels.
pub open spec fn selection(text: Option<Seq<char>>, len: nat) -> Selection {
    match text {
        None => Selection::Missing,
        Some(t) => match typed_number(t) {
            None => Selection::NotANumber,
            Some(k) => if k == 0 {
                Selection::Cancel
            } else if k - 1 < len {
                Selection::Entry((k - 1) as usize)
            } else {
                Selection::OutOfRange
            },
        },
    }
}

fn select(text: &Option<String>, len: usize) -> (s: Selection)
    ensures
        s == selection(text_of(*text), len as nat),
{
    match text {
        None => Selection::Missing,
        Some(t) => match typed_index(t.as_str()) {
            None => Selection::NotANumber,
            Some(k) => if k == 0 {
                Selection::Cancel
            } else if k - 1 < len {
                Selection::Entry(k - 1)
            } else {
                Selection::OutOfRange
            },
        },
    }
}

/// A reply of one message.
fn reply_with(message: &str, transition: Transition) -> (r: Reply)
    ensures
        texts(r.messages@) == seq![message@],
        r.transition == transition,
{
    let mut messages: Vec<String> = Vec::new();
    messages.push(String::from_str(message));
    assert(texts(messages@) =~= seq![message@]);
    Reply { messages, transition }
}

/// Appends the `k`-th line of a numbered list.
fn append_listing_line(found: &mut String, k: usize, name: &str)
    ensures
        final(found)@ == old(found)@ + listing_line(k as nat, name@),
{
    append_decimal(found, k);
    found.append(" - ");
    found.append(name);
    found.append("\n");
    proof {
        assert(old(found)@ + listing_line(k as nat, name@) =~= found@);
    }
}

/// The `/start` command, once the user is stored.
pub fn start() -> (r: Reply)
    ensures
        texts(r.messages@) == seq!["User aded to database. Type /help to see avaible commands"@],
        r.transition is Exit,
{
    reply_with("User aded to database. Type /help to see avaible commands", Transition::Exit)
}

/// The `/help` command: the description of the commands.
pub fn help(descriptions: String) -> (r: Reply)
    ensures
        texts(r.messages@) == seq![descriptions@],
        r.transition is Exit,
{
    let mut messages: Vec<String> = Vec::new();
    messages.push(descriptions);
    assert(texts(messages@) =~= seq![descriptions@]);
    Reply { messages, transition: Transition::Exit }
}

/// The `/search` command: ask for a title.
pub fn search() -> (r: Reply)
    ensures
        texts(r.messages@) == seq!["Type the name of the manga you want to search"@],
        r.transition matches Transition::Update(State::ReceiveSearch),
{
    reply_with("Type the name of the manga you want to search", Transition::Update(State::ReceiveSearch))
}

/// What the bot does with the answer to "which title?".
pub enum SearchStep {
    /// Reply, without searching.
    Respond(Reply),
    /// Search MangaDex for this title.
    Lookup(String),
}

/// The answer to "which title?": a message without text is asked again,
/// a text is the title to search.
pub fn receive_search(text: Option<String>) -> (step: SearchStep)
    ensures
        text is None ==> (step matches SearchStep::Respond(r) && texts(r.messages@) == seq![
            "Type the name of manga you want to add"@,
        ] && r.transition matches Transition::Update(State::ReceiveSearch)),
        text matches Some(t) ==> (step matches SearchStep::Lookup(title) && title@ == t@),
{
    match text {
        None => SearchStep::Respond(
            reply_with(
                "Type the name of manga you want to add",
                Transition::Update(State::ReceiveSearch),
            ),
        ),
        Some(title) => SearchStep::Lookup(title),
    }
}

/// The results of a search (`None` where the search failed): a failure or
/// an empty result ends the dialogue; otherwise the titles are listed,
/// numbered from one, and the dialogue waits for the number of the one to
/// follow, with the listed mangas in the listed order.
pub fn receive_search_results(found: Option<MangaList>) -> (r: Reply)
    ensures
        found is None ==> texts(r.messages@) == seq!["Failed to search manga"@]
            && r.transition is Exit,
        found matches Some(m) ==> (m.data@.len() == 0 ==> texts(r.messages@) == seq![
            "No manga found"@,
        ] && r.transition is Exit),
        found matches Some(m) ==> (m.data@.len() > 0 ==> {
            &&& texts(r.messages@) == seq![
                "Manga Found: \n"@ + listing(titles(m.data@)),
                "Type the number of the manga you want do add to your list or 0 to do nothing"@,
            ]
            &&& r.transition matches Transition::Update(
                State::ReceiveMangaIndex { avaible_mangas },
            ) && avaible_mangas.mangas@.len() == m.data@.len() && avaible_mangas.mangas@.len() > 0
                && forall|i: int|
                0 <= i < m.data@.len() ==> offered(
                    #[trigger] avaible_mangas.mangas@[i],
                    m.data@[i],
                )
        }),
{
    let resp = match found {
        None => {
            return reply_with("Failed to search manga", Transition::Exit);
        },
        Some(resp) => resp,
    };
    let n = resp.data.len();
    if n == 0 {
        return reply_with("No manga found", Transition::Exit);
    }
    let mut avaible_mangas = VecManga::new();
    let mut found_text = String::from_str("Manga Found: \n");
    let ghost header = found_text@;
    let ghost names = titles(resp.data@);
    assert(names.take(0) =~= Seq::<Seq<char>>::empty());
    for i in 0..n
        invariant
            n == resp.data@.len(),
            names == titles(resp.data@),
            found_text@ == header + listing(names.take(i as int)),
            avaible_mangas.mangas@.len() == i,
            forall|j: int| 0 <= j < i ==> offered(#[trigger] avaible_mangas.mangas@[j], resp.data@[j]),
    {
        let entry = &resp.data[i];
        let title = entry.attributes.title.text();
        append_listing_line(&mut found_text, i + 1, title.as_str());
        proof {
            assert(names.take(i + 1).drop_last() =~= names.take(i as int));
            assert(names.take(i + 1).last() == title@);
        }
        let current_chapter = match &entry.attributes.chapter {
            Some(chapter) => chapter.clone(),
            None => String::new(),
        };
        avaible_mangas.mangas.push(Manga { manga_id: entry.id.clone(), name: title, current_chapter });
    }
    assert(names.take(n as int) =~= names);
    let mut messages: Vec<String> = Vec::new();
    messages.push(found_text);
    messages.push(
        String::from_str(
            "Type the number of the manga you want do add to your list or 0 to do nothing",
        ),
    );
    proof {
        reveal_strlit("Manga Found: \n");
    }
    assert(texts(messages@) =~= seq![
        "Manga Found: \n"@ + listing(titles(resp.data@)),
        "Type the number of the manga you want do add to your list or 0 to do nothing"@,
    ]);
    Reply { messages, transition: Transition::Update(State::ReceiveMangaIndex { avaible_mangas }) }
}


/// What the bot does with the answer to "which manga to follow?".
pub enum MangaChoice {
    /// Reply, and follow nothing.
    Respond(Reply),
    /// Follow this manga: look up its latest chapter, then store the manga
    /// and the user's subscription to it.
    Add(Manga),
}

/// The answer to the numbered list of search results. A message without
/// text or a text that is not a number is asked again, with the same list;
/// 0 ends the dialogue; the number of a listed manga picks it; any other
/// number ends the dialogue.
pub fn receive_manga_index(text: Option<String>, avaible_mangas: VecManga) -> (c: MangaChoice)
    ensures
        ({
            let s = selection(text_of(text), avaible_mangas.mangas@.len());
            &&& s is Missing ==> (c matches MangaChoice::Respond(r) && texts(r.messages@) == seq![
                "Type the number of manga you want to add"@,
            ] && r.transition == Transition::Update(State::ReceiveMangaIndex { avaible_mangas }))
            &&& s is NotANumber ==> (c matches MangaChoice::Respond(r) && texts(r.messages@)
                == seq!["Please enter a valid number"@] && r.transition == Transition::Update(
                State::ReceiveMangaIndex { avaible_mangas },
            ))
            &&& s is Cancel ==> (c matches MangaChoice::Respond(r) && texts(r.messages@) == seq![
                "Quiting withount doing anything"@,
            ] && r.transition is Exit)
            &&& s matches Selection::Entry(k) ==> c == MangaChoice::Add(
                avaible_mangas.mangas@[k as int],
            )
            &&& s is OutOfRange ==> (c matches MangaChoice::Respond(r) && texts(r.messages@)
                == seq!["Type the correct number of manga"@] && r.transition is Exit)
        }),
{
    let len = avaible_mangas.mangas.len();
    match select(&text, len) {
        Selection::Missing => MangaChoice::Respond(
            reply_with(
                "Type the number of manga you want to add",
                Transition::Update(State::ReceiveMangaIndex { avaible_mangas }),
            ),
        ),
        Selection::NotANumber => MangaChoice::Respond(
            reply_with(
                "Please enter a valid number",
                Transition::Update(State::ReceiveMangaIndex { avaible_mangas }),
            ),
        ),
        Selection::Cancel => MangaChoice::Respond(
            reply_with("Quiting withount doing anything", Transition::Exit),
        ),
        Selection::Entry(k) => {
            let mut mangas = avaible_mangas.mangas;
            MangaChoice::Add(mangas.remove(k))
        },
        Selection::OutOfRange => MangaChoice::Respond(
            reply_with("Type the correct number of manga", Transition::Exit),
        ),
    }
}

/// The row that following a manga stores in the manga table: its id, its
/// name and its latest chapter, where the latest chapter was found.
pub open spec fn manga_row_of(manga: Manga, found: Option<LastChapterInfo>) -> Option<
    (Seq<char>, Seq<char>, Seq<char>),
> {
    match found {
        Some(info) => Some((manga.manga_id@, manga.name@, info.number@)),
        None => None,
    }
}

/// The subscription that following a manga stores: the manga's id and the
/// chat's id, where the latest chapter was found.
pub open spec fn subscription_of(manga: Manga, chat_id: Seq<char>, found: Option<LastChapterInfo>) -> Option<
    (Seq<char>, Seq<char>),
> {
    match found {
        Some(info) => Some((manga.manga_id@, chat_id)),
        None => None,
    }
}

/// The text of a row that may be absent.
pub open spec fn row_view(row: Option<(String, String, String)>) -> Option<
    (Seq<char>, Seq<char>, Seq<char>),
> {
    match row {
        Some((a, b, c)) => Some((a@, b@, c@)),
        None => None,
    }
}

/// The text of a pair that may be absent.
pub open spec fn pair_view(pair: Option<(String, String)>) -> Option<(Seq<char>, Seq<char>)> {
    match pair {
        Some((a, b)) => Some((a@, b@)),
        None => None,
    }
}

/// What following a manga writes and replies: the manga row (id, name,
/// latest chapter) to store, the subscription (manga id, chat id) to store,
/// and the reply.
pub struct Following {
    pub manga_row: Option<(String, String, String)>,
    pub subscription: Option<(String, String)>,
    pub reply: Reply,
}

/// The end of following a manga, given the lookup of its latest chapter
/// (`None` where it failed): where the chapter was found, the manga is
/// stored with its name and that chapter, the chat is subscribed to it and
/// told so; otherwise nothing is stored and nothing is said. Either way the
/// dialogue ends.
pub fn chapter_looked_up(manga: Manga, chat_id: String, found: Option<LastChapterInfo>) -> (f: Following)
    ensures
        row_view(f.manga_row) == manga_row_of(manga, found),
        pair_view(f.subscription) == subscription_of(manga, chat_id@, found),
        found is Some ==> texts(f.reply.messages@) == seq!["Manga inserted"@],
        found is None ==> f.reply.messages@.len() == 0,
        f.reply.transition is Exit,
{
    match found {
        Some(info) => {
            let manga_id = manga.manga_id.clone();
            Following {
                manga_row: Some((manga.manga_id, manga.name, info.number)),
                subscription: Some((manga_id, chat_id)),
                reply: reply_with("Manga inserted", Transition::Exit),
            }
        },
        None => Following {
            manga_row: None,
            subscription: None,
            reply: Reply { messages: Vec::new(), transition: Transition::Exit },
        },
    }
}

/// The `/list` command, given the user's subscriptions (`None` where they
/// could not be read): they are listed by name, numbered from one, and the
/// dialogue waits for the number of the one to remove. A subscription read
/// for this list carries the manga's name.
pub fn list(subscriptions: Option<Vec<ClientSubscription>>) -> (r: Reply)
    requires
        subscriptions matches Some(subs) ==> forall|i: int|
            0 <= i < subs@.len() ==> (#[trigger] subs@[i]).manga_name is Some,
    ensures
        subscriptions is None ==> texts(r.messages@) == seq!["No manga found in your list"@]
            && r.transition is Exit,
        subscriptions matches Some(subs) ==> {
            &&& texts(r.messages@) == seq![
                "Manga in your list: \n"@ + listing(subscription_names(subs@)),
                "Type the number of the manga you want to remove or 0 to do nothing"@,
            ]
            &&& r.transition == Transition::Update(
                State::ReceiveMangaToRemoveFromList { subscriptions: subs },
            )
        },
{
    let subscriptions = match subscriptions {
        None => {
            return reply_with("No manga found in your list", Transition::Exit);
        },
        Some(subscriptions) => subscriptions,
    };
    let n = subscriptions.len();
    let mut found_text = String::from_str("Manga in your list: \n");
    let ghost header = found_text@;
    let ghost names = subscription_names(subscriptions@);
    assert(names.take(0) =~= Seq::<Seq<char>>::empty());
    for i in 0..n
        invariant
            n == subscriptions@.len(),
            names == subscription_names(subscriptions@),
            found_text@ == header + listing(names.take(i as int)),
            forall|j: int|
                0 <= j < subscriptions@.len() ==> (#[trigger] subscriptions@[j]).manga_name is Some,
    {
        let name = match &subscriptions[i].manga_name {
            Some(name) => name.as_str(),
            None => "",
        };
        append_listing_line(&mut found_text, i + 1, name);
        proof {
            assert(names.take(i + 1).drop_last() =~= names.take(i as int));
            assert(names.take(i + 1).last() == name@);
        }
    }
    assert(names.take(n as int) =~= names);
    let mut messages: Vec<String> = Vec::new();
    messages.push(found_text);
    messages.push(
        String::from_str("Type the number of the manga you want to remove or 0 to do nothing"),
    );
    proof {
        reveal_strlit("Manga in your list: \n");
    }
    assert(texts(messages@) =~= seq![
        "Manga in your list: \n"@ + listing(subscription_names(subscriptions@)),
        "Type the number of the manga you want to remove or 0 to do nothing"@,
    ]);
    Reply {
        messages,
        transition: Transition::Update(State::ReceiveMangaToRemoveFromList { subscriptions }),
    }
}

/// What the bot does with the answer to "which manga to remove?".
pub enum RemovalChoice {
    /// Reply, and remove nothing.
    Respond(Reply),
    /// Remove this subscription, then reply.
    Remove(ClientSubscription, Reply),
}

/// The answer to the numbered list of subscriptions. A message without text
/// or a text that is not a number is asked again, with the same list; 0 ends
/// the dialogue; the number of a listed subscription removes it; any other
/// number ends the dialogue.
pub fn receive_manga_to_remove_from_list(
    text: Option<String>,
    subscriptions: Vec<ClientSubscription>,
) -> (c: RemovalChoice)
    ensures
        ({
            let s = selection(text_of(text), subscriptions@.len());
            &&& s is Missing ==> (c matches RemovalChoice::Respond(r) && texts(r.messages@)
                == seq!["Type the number of manga you want to remove"@] && r.transition
                == Transition::Update(State::ReceiveMangaToRemoveFromList { subscriptions }))
            &&& s is NotANumber ==> (c matches RemovalChoice::Respond(r) && texts(r.messages@)
                == seq!["Please enter a valid number"@] && r.transition == Transition::Update(
                State::ReceiveMangaToRemoveFromList { subscriptions },
            ))
            &&& s is Cancel ==> (c matches RemovalChoice::Respond(r) && texts(r.messages@)
                == seq!["Quiting withount doing anything"@] && r.transition is Exit)
            &&& s matches Selection::Entry(k) ==> (c matches RemovalChoice::Remove(sub, r) && sub
                == subscriptions@[k as int] && texts(r.messages@) == seq![
                "Manga removed from list"@,
            ] && r.transition is Exit)
            &&& s is OutOfRange ==> (c matches RemovalChoice::Respond(r) && texts(r.messages@)
                == seq!["Type the correct number of manga"@] && r.transition is Exit)
        }),
{
    let len = subscriptions.len();
    match select(&text, len) {
        Selection::Missing => RemovalChoice::Respond(
            reply_with(
                "Type the number of manga you want to remove",
                Transition::Update(State::ReceiveMangaToRemoveFromList { subscriptions }),
            ),
        ),
        Selection::NotANumber => RemovalChoice::Respond(
            reply_with(
                "Please enter a valid number",
                Transition::Update(State::ReceiveMangaToRemoveFromList { subscriptions }),
            ),
        ),
        Selection::Cancel => RemovalChoice::Respond(
            reply_with("Quiting withount doing anything", Transition::Exit),
        ),
        Selection::Entry(k) => {
            let mut subscriptions = subscriptions;
            let subscription = subscriptions.remove(k);
            RemovalChoice::Remove(
                subscription,
                reply_with("Manga removed from list", Transition::Exit),
            )
        },
        Selection::OutOfRange => RemovalChoice::Respond(
            reply_with("Type the correct number of manga", Transition::Exit),
        ),
    }
}

/// The number printed before the `k`-th line of a numbered list is the
/// answer that picks the `k`-th entry, and 0 picks none.
pub proof fn lemma_listed_number_picks_entry(len: usize, k: usize)
    requires
        1 <= k <= len,
    ensures
        selection(Some(decimal(k as nat)), len as nat) == Selection::Entry((k - 1) as usize),
        selection(Some(decimal(0)), len as nat) == Selection::Cancel,
{
    crate::text::lemma_typed_number_of_decimal(k);
    crate::text::lemma_typed_number_of_decimal(0);
}

/// A numbered list begins with the list of its first `k` names, which ends
/// with the `k`-th line: the number `k` and the `k`-th name.
pub proof fn lemma_listing_line(names: Seq<Seq<char>>, k: int)
    requires
        1 <= k <= names.len(),
    ensures
        listing(names.take(k)) == listing(names.take(k - 1)) + listing_line(k as nat, names[k - 1]),
        listing(names.take(k)).len() <= listing(names).len(),
        listing(names).take(listing(names.take(k)).len() as int) == listing(names.take(k)),
    decreases names.len(),
{
    assert(names.take(k).drop_last() =~= names.take(k - 1));
    if k == names.len() {
        assert(names.take(k) =~= names);
        assert(listing(names).take(listing(names).len() as int) =~= listing(names));
    } else {
        lemma_listing_line(names.drop_last(), k);
        assert(names.drop_last().take(k) =~= names.take(k));
        let p = listing(names.take(k));
        let whole = listing(names);
        assert(whole == listing(names.drop_last()) + listing_line(names.len(), names.last()));
        assert(whole.take(p.len() as int) =~= listing(names.drop_last()).take(p.len() as int));
    }
}


/// Answering with the number printed before the `k`-th offered manga, and
/// finding its latest chapter, stores that manga with its name and that
/// chapter, and subscribes the chat to that manga.
pub proof fn lemma_listed_number_follows_listed_manga(
    offered_mangas: Seq<Manga>,
    k: usize,
    chat_id: Seq<char>,
    info: LastChapterInfo,
)
    requires
        1 <= k <= offered_mangas.len(),
        offered_mangas.len() <= usize::MAX,
    ensures
        selection(Some(decimal(k as nat)), offered_mangas.len()) == Selection::Entry(
            (k - 1) as usize,
        ),
        manga_row_of(offered_mangas[k - 1], Some(info)) == Some(
            (offered_mangas[k - 1].manga_id@, offered_mangas[k - 1].name@, info.number@),
        ),
        subscription_of(offered_mangas[k - 1], chat_id, Some(info)) == Some(
            (offered_mangas[k - 1].manga_id@, chat_id),
        ),
{
    lemma_listed_number_picks_entry(offered_mangas.len() as usize, k);
}


/// Every line of a numbered list, whatever its number, reads as the number
/// itself, " - ", the name and a line break; and the number read back from
/// the line picks the entry that the line shows.
pub proof fn lemma_line_number_picks_its_entry(k: usize, name: Seq<char>, len: usize)
    requires
        1 <= k <= len,
    ensures
        ({
            let line = listing_line(k as nat, name);
            let number = line.subrange(0, line.len() - name.len() - 4);
            &&& line == number + seq![' ', '-', ' '] + name + seq!['\n']
            &&& typed_number(number) == Some(k)
            &&& selection(Some(number), len as nat) == Selection::Entry((k - 1) as usize)
        }),
{
    reveal_strlit(" - ");
    reveal_strlit("\n");
    let line = listing_line(k as nat, name);
    let number = line.subrange(0, line.len() - name.len() - 4);
    assert(number =~= decimal(k as nat));
    assert(line =~= number + seq![' ', '-', ' '] + name + seq!['\n']);
    crate::text::lemma_typed_number_of_decimal(k);
    lemma_listed_number_picks_entry(len, k);
}

} // verus!
