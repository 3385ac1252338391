//! Who follows which manga: each (manga, user) pair at most once.
use vstd::prelude::*;

verus! {

/// A user's subscription to a manga; the manga's name where it was looked up.
#[derive(Debug, Clone)]
pub struct ClientSubscription {
    pub manga_id: String,
    pub client_id: String,
    pub manga_name: Option<String>,
}

/// The (manga id, user id) pairs of stored subscriptions.
pub open spec fn pair_views(stored: Seq<(String, String)>) -> Seq<(Seq<char>, Seq<char>)> {
    stored.map_values(|p: (String, String)| (p.0@, p.1@))
}

/// The subscription table after a user subscribed to a manga: the pair is
/// added unless already there.
pub open spec fn subscribed(
    stored: Seq<(Seq<char>, Seq<char>)>,
    pair: (Seq<char>, Seq<char>),
) -> Seq<(Seq<char>, Seq<char>)> {
    if stored.contains(pair) {
        stored
    } else {
        stored.push(pair)
    }
}

/// Whether the subscription of `client_id` to `manga_id` still has to be
/// stored, given the pairs already stored.
pub fn needs_subscription(stored: &Vec<(String, String)>, manga_id: &String, client_id: &String) -> (r: bool)
    ensures
        r == !pair_views(stored@).contains((manga_id@, client_id@)),
{
    let n = stored.len();
    for i in 0..n
        invariant
            n == stored@.len(),
            forall|j: int|
                0 <= j < i ==> (stored@[j].0@, stored@[j].1@) != (manga_id@, client_id@),
    {
        if stored[i].0 == *manga_id && stored[i].1 == *client_id {
            assert(pair_views(stored@)[i as int] == (manga_id@, client_id@));
            return false;
        }
    }
    proof {
        if pair_views(stored@).contains((manga_id@, client_id@)) {
            let j = choose|j: int|
                0 <= j < pair_views(stored@).len() && pair_views(stored@)[j] == (
                    manga_id@,
                    client_id@,
                );
            assert((stored@[j].0@, stored@[j].1@) == (manga_id@, client_id@));
        }
    }
    true
}

/// Subscribing stores each (manga, user) pair once: the table keeps no pair
/// twice, holds the new pair, and subscribing again changes nothing.
pub proof fn lemma_subscription_stored_once(
    stored: Seq<(Seq<char>, Seq<char>)>,
    pair: (Seq<char>, Seq<char>),
)
    requires
        stored.no_duplicates(),
    ensures
        subscribed(stored, pair).no_duplicates(),
        subscribed(stored, pair).contains(pair),
        subscribed(subscribed(stored, pair), pair) == subscribed(stored, pair),
{
    let r = subscribed(stored, pair);
    if !stored.contains(pair) {
        assert(r[stored.len() as int] == pair);
        assert forall|i: int, j: int| 0 <= i < r.len() && 0 <= j < r.len() && i != j implies r[i]
            != r[j] by {
            if i < stored.len() && j < stored.len() {
                assert(r[i] == stored[i] && r[j] == stored[j]);
            } else if i < stored.len() {
                assert(r[i] == stored[i]);
            } else {
                assert(r[j] == stored[j]);
            }
        }
    }
}

} // verus!
