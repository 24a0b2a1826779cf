//! Which user owns which thread.
use crate::db::shows_only;
use crate::text::same_text;
use std::collections::BTreeMap;
use vstd::hash_set::StringHashSet;
use vstd::prelude::*;

verus! {

/// The entries of a JSON object that maps thread ids to user ids, ordered by thread id, or what is
/// said of a text that is no such object.
pub uninterp spec fn owners_json(json: Seq<u8>) -> Result<
    Seq<(Seq<char>, Seq<char>)>,
    Seq<char>,
>;

/// The texts of a list of threads and their owners.
pub open spec fn owner_texts(owners: Seq<(String, String)>) -> Seq<(Seq<char>, Seq<char>)> {
    owners.map_values(|entry: (String, String)| (entry.0@, entry.1@))
}

/// Whether no thread has two owners.
pub open spec fn one_owner_each(owners: Seq<(Seq<char>, Seq<char>)>) -> bool {
    forall|i: int, j: int|
        0 <= i < owners.len() && 0 <= j < owners.len() && #[trigger] owners[i].0
            == #[trigger] owners[j].0 ==> i == j
}

/// `serde_json::from_slice` into a map of strings gives the entries of a JSON object whose values are
/// all strings, and fails on anything else. The map has each key once, with the value that came
/// last, and is handed out ordered by its keys. The error shows itself as a text that depends on the
/// input alone.
#[verifier::external_body]
pub(crate) fn parse_owners(json: &[u8]) -> (result: Result<
    Vec<(String, String)>,
    serde_json::Error,
>)
    ensures
        match result {
            Ok(owners) => {
                &&& owners_json(json@) == Ok::<Seq<(Seq<char>, Seq<char>)>, Seq<char>>(
                    owner_texts(owners@),
                )
                &&& one_owner_each(owner_texts(owners@))
            },
            Err(error) => owners_json(json@) matches Err(message) && shows_only(&error, message),
        },
{
    let owners: BTreeMap<String, String> = serde_json::from_slice(json)?;
    Ok(owners.into_iter().collect())
}

/// The threads that a user owns.
pub open spec fn owned_by(
    owners: Seq<(Seq<char>, Seq<char>)>,
    user_id: Seq<char>,
) -> Set<Seq<char>> {
    Set::new(|thread: Seq<char>| owners.contains((thread, user_id)))
}

/// Collects the threads that a user owns.
pub fn owned_threads(owners: &Vec<(String, String)>, user_id: &str) -> (owned: StringHashSet)
    ensures
        owned@ == owned_by(owner_texts(owners@), user_id@),
{
    let mut owned = StringHashSet::new();
    let mut index: usize = 0;
    assert(owned@ =~= owned_by(owner_texts(owners@).take(0), user_id@));
    while index < owners.len()
        invariant
            index <= owners.len(),
            owned@ == owned_by(owner_texts(owners@).take(index as int), user_id@),
        decreases owners.len() - index,
    {
        let (thread, owner) = &owners[index];
        if same_text(owner.as_str(), user_id) {
            owned.insert(thread.clone());
        }
        proof {
            let taken = owner_texts(owners@).take(index as int);
            let entry = (thread@, owner@);
            assert(owner_texts(owners@).take(index + 1) =~= taken.push(entry));
            entries_after_push(taken, entry, user_id@);
        }
        index += 1;
    }
    assert(owner_texts(owners@).take(index as int) =~= owner_texts(owners@));
    owned
}

proof fn entries_after_push(
    owners: Seq<(Seq<char>, Seq<char>)>,
    entry: (Seq<char>, Seq<char>),
    user_id: Seq<char>,
)
    ensures
        owned_by(owners.push(entry), user_id) == if entry.1 == user_id {
            owned_by(owners, user_id).insert(entry.0)
        } else {
            owned_by(owners, user_id)
        },
{
    let pushed = owners.push(entry);
    let expected = if entry.1 == user_id {
        owned_by(owners, user_id).insert(entry.0)
    } else {
        owned_by(owners, user_id)
    };
    assert forall|thread: Seq<char>| owned_by(pushed, user_id).contains(thread)
        == #[trigger] expected.contains(thread) by {
        assert(pushed[owners.len() as int] == entry);
        if owners.contains((thread, user_id)) {
            let i = owners.index_of((thread, user_id));
            assert(pushed[i] == owners[i]);
        }
    }
    assert(owned_by(pushed, user_id) =~= expected);
}

/// Reads a JSON object that maps thread ids to user ids, and collects the threads that a user owns.
pub fn owned_thread_ids(json: &[u8], user_id: &str) -> (result: Result<
    StringHashSet,
    serde_json::Error,
>)
    ensures
        match (owners_json(json@), result) {
            (Ok(owners), Ok(owned)) => {
                &&& one_owner_each(owners)
                &&& owned@ == owned_by(owners, user_id@)
            },
            (Err(message), Err(error)) => shows_only(&error, message),
            _ => false,
        },
{
    match parse_owners(json) {
        Ok(owners) => Ok(owned_threads(&owners, user_id)),
        Err(error) => Err(error),
    }
}

/// Where no thread has two owners, two users own no thread together.
pub proof fn users_share_no_thread(
    owners: Seq<(Seq<char>, Seq<char>)>,
    user_id: Seq<char>,
    other_id: Seq<char>,
)
    requires
        one_owner_each(owners),
        user_id != other_id,
    ensures
        owned_by(owners, user_id).disjoint(owned_by(owners, other_id)),
{
    assert forall|thread: Seq<char>| owned_by(owners, user_id).contains(thread) implies !owned_by(
        owners,
        other_id,
    ).contains(thread) by {
        if owned_by(owners, other_id).contains(thread) {
            let i = owners.index_of((thread, user_id));
            let j = owners.index_of((thread, other_id));
            assert(owners[i].0 == owners[j].0);
        }
    }
}

/// A user owns a thread exactly if there is an entry of the thread with the user's id.
pub proof fn owned_threads_have_entries(
    owners: Seq<(Seq<char>, Seq<char>)>,
    user_id: Seq<char>,
    thread: Seq<char>,
)
    ensures
        owned_by(owners, user_id).contains(thread) <==> exists|i: int|
            0 <= i < owners.len() && (#[trigger] owners[i]).0 == thread && owners[i].1 == user_id,
{
    if owned_by(owners, user_id).contains(thread) {
        let i = owners.index_of((thread, user_id));
        assert(owners[i].0 == thread);
    }
    assert forall|i: int|
        0 <= i < owners.len() && (#[trigger] owners[i]).0 == thread && owners[i].1
            == user_id implies owned_by(owners, user_id).contains(thread) by {
        assert(owners[i] == (thread, user_id));
    }
}

/// The threads that are read for a user are those whose entries in the JSON object hold the user's id.
pub proof fn owned_threads_are_read(
    json: &[u8],
    user_id: &str,
    result: Result<StringHashSet, serde_json::Error>,
    owners: Seq<(Seq<char>, Seq<char>)>,
    thread: Seq<char>,
)
    requires
        call_ensures(owned_thread_ids, (json, user_id), result),
        owners_json(json@) == Ok::<Seq<(Seq<char>, Seq<char>)>, Seq<char>>(owners),
    ensures
        result matches Ok(owned) && (owned@.contains(thread) <==> exists|i: int|
            0 <= i < owners.len() && (#[trigger] owners[i]).0 == thread && owners[i].1
                == user_id@),
{
    owned_threads_have_entries(owners, user_id@, thread);
}

} // verus!
