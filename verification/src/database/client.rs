//! The users of the bot, each known by its Telegram chat id, each once.
use vstd::prelude::*;

verus! {

/// A user of the bot.
#[derive(Debug, Clone)]
pub struct Client {
    pub telegram_id: String,
}

/// The ids of a list of stored clients.
pub open spec fn client_ids(clients: Seq<String>) -> Seq<Seq<char>> {
    clients.map_values(|c: String| c@)
}

/// The client table after a user with `telegram_id` registered: the user
/// is added unless already there.
pub open spec fn registered(clients: Seq<Seq<char>>, telegram_id: Seq<char>) -> Seq<Seq<char>> {
    if clients.contains(telegram_id) {
        clients
    } else {
        clients.push(telegram_id)
    }
}

/// Whether a user with `telegram_id` still has to be stored, given the ids
/// already stored.
pub fn needs_registration(clients: &Vec<String>, telegram_id: &String) -> (r: bool)
    ensures
        r == !client_ids(clients@).contains(telegram_id@),
{
    let n = clients.len();
    for i in 0..n
        invariant
            n == clients@.len(),
            forall|j: int| 0 <= j < i ==> clients@[j]@ != telegram_id@,
    {
        if clients[i] == *telegram_id {
            assert(client_ids(clients@)[i as int] == telegram_id@);
            return false;
        }
    }
    proof {
        if client_ids(clients@).contains(telegram_id@) {
            let j = choose|j: int|
                0 <= j < client_ids(clients@).len() && client_ids(clients@)[j] == telegram_id@;
            assert(clients@[j]@ == telegram_id@);
        }
    }
    true
}

/// Registering keeps every user in the table once, leaves the user in the
/// table, and registering the same user again changes nothing.
pub proof fn lemma_registration_keeps_clients_unique(clients: Seq<Seq<char>>, telegram_id: Seq<char>)
    requires
        clients.no_duplicates(),
    ensures
        registered(clients, telegram_id).no_duplicates(),
        registered(clients, telegram_id).contains(telegram_id),
        registered(registered(clients, telegram_id), telegram_id) == registered(
            clients,
            telegram_id,
        ),
{
    let r = registered(clients, telegram_id);
    if !clients.contains(telegram_id) {
        assert(r[clients.len() as int] == telegram_id);
        assert forall|i: int, j: int| 0 <= i < r.len() && 0 <= j < r.len() && i != j implies r[i]
            != r[j] by {
            if i < clients.len() && j < clients.len() {
                assert(r[i] == clients[i] && r[j] == clients[j]);
            } else if i < clients.len() {
                assert(r[i] == clients[i]);
            } else {
                assert(r[j] == clients[j]);
            }
        }
    }
}

} // verus!
