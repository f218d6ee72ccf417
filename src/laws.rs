//! What holds of every transition: the properties of the correlator, proved
//! over the models that `plan_arrival` is specified by.
use vstd::prelude::*;
use crate::presence::{
    arriving_person, guild_unchanged, in_snapshot, is_active, other_account_present, peer_targets,
    peer_wanted, person_active, self_target, VoiceEntry, VoiceTransition,
};
use crate::roster::{owner, owns_account, User};

verus! {

/// A move between channels of the guild the account was already in never
/// notifies anyone.
pub proof fn lemma_move_within_guild_is_silent(users: Seq<User>, t: VoiceTransition, s: Seq<VoiceEntry>)
    requires
        guild_unchanged(t),
    ensures
        arriving_person(users, t, s) is None,
{
}

/// Leaving voice altogether never notifies anyone.
pub proof fn lemma_departure_is_silent(users: Seq<User>, t: VoiceTransition, s: Seq<VoiceEntry>)
    requires
        t.new_channel is None,
    ensures
        arriving_person(users, t, s) is None,
{
}

/// A transition of an account that no roster member owns notifies nobody.
pub proof fn lemma_unknown_account_is_silent(users: Seq<User>, t: VoiceTransition, s: Seq<VoiceEntry>)
    requires
        owner(users, t.account_id) is None,
    ensures
        arriving_person(users, t, s) is None,
{
}

/// When another account of the same person is in the snapshot, in whatever
/// channel and deaf or not, nobody is notified.
pub proof fn lemma_second_account_is_silent(
    users: Seq<User>,
    t: VoiceTransition,
    s: Seq<VoiceEntry>,
    k: int,
)
    requires
        owner(users, t.account_id) matches Some(i) && 0 <= k < s.len() && s[k].account_id
            != t.account_id && owns_account(users[i], s[k].account_id),
    ensures
        arriving_person(users, t, s) is None,
{
    let i = owner(users, t.account_id)->0;
    assert(other_account_present(s, users[i], t.account_id));
}

/// The arriving person is told of their own arrival exactly when they have a
/// chat and their primary account is not in the snapshot; it goes to that chat.
pub proof fn lemma_self_notify(users: Seq<User>, t: VoiceTransition, s: Seq<VoiceEntry>, i: int)
    requires
        arriving_person(users, t, s) == Some(i),
    ensures
        self_target(users, s, i) is Some <==> (users[i].telegram_chat_id is Some && !in_snapshot(
            s,
            users[i].discord_primary_id,
        )),
        self_target(users, s, i) is Some ==> self_target(users, s, i) == users[i].telegram_chat_id,
{
}

proof fn lemma_peer_targets(users: Seq<User>, s: Seq<VoiceEntry>, i: int, n: nat)
    requires
        n <= users.len() <= usize::MAX,
    ensures
        forall|k: int|
            0 <= k < peer_targets(users, s, i, n).len() ==> {
                let r = #[trigger] peer_targets(users, s, i, n)[k];
                &&& r.user < n
                &&& peer_wanted(users, s, i, r.user as int)
                &&& r.chat_id == users[r.user as int].telegram_chat_id->0
            },
        forall|j: int|
            0 <= j < n && #[trigger] peer_wanted(users, s, i, j) ==> exists|k: int|
                0 <= k < peer_targets(users, s, i, n).len() && (#[trigger] peer_targets(
                    users,
                    s,
                    i,
                    n,
                )[k]).user == j,
    decreases n,
{
    if n > 0 {
        let m = (n - 1) as nat;
        lemma_peer_targets(users, s, i, m);
        let before = peer_targets(users, s, i, m);
        let now = peer_targets(users, s, i, n);
        assert forall|j: int| 0 <= j < n && #[trigger] peer_wanted(users, s, i, j) implies exists|
            k: int,
        | 0 <= k < now.len() && (#[trigger] now[k]).user == j by {
            if j < m {
                let k = choose|k: int| 0 <= k < before.len() && (#[trigger] before[k]).user == j;
                assert(now[k] == before[k]);
            } else {
                assert(now[before.len() as int].user == j);
            }
        }
    }
}

/// A member is told of the arrival exactly when they are not the arriving
/// person, have a chat, and none of their accounts is in a channel and
/// listening; each is told at their own chat, and the arriving person never
/// among them.
pub proof fn lemma_peer_notify(users: Seq<User>, t: VoiceTransition, s: Seq<VoiceEntry>, i: int, j: int)
    requires
        arriving_person(users, t, s) == Some(i),
        0 <= j < users.len() <= usize::MAX,
    ensures
        (exists|k: int|
            0 <= k < peer_targets(users, s, i, users.len()).len() && (#[trigger] peer_targets(
                users,
                s,
                i,
                users.len(),
            )[k]).user == j) <==> {
            &&& users[j].discord_primary_id != users[i].discord_primary_id
            &&& users[j].telegram_chat_id is Some
            &&& !person_active(s, users[j])
        },
        forall|k: int|
            0 <= k < peer_targets(users, s, i, users.len()).len() ==> {
                let r = #[trigger] peer_targets(users, s, i, users.len())[k];
                &&& r.user != i
                &&& r.chat_id == users[r.user as int].telegram_chat_id->0
            },
{
    lemma_peer_targets(users, s, i, users.len());
    let ts = peer_targets(users, s, i, users.len());
    if exists|k: int| 0 <= k < ts.len() && (#[trigger] ts[k]).user == j {
        let k = choose|k: int| 0 <= k < ts.len() && (#[trigger] ts[k]).user == j;
        assert(peer_wanted(users, s, i, ts[k].user as int));
    }
    if peer_wanted(users, s, i, j) {
    }
}

proof fn lemma_same_entries(s1: Seq<VoiceEntry>, s2: Seq<VoiceEntry>, k: int) -> (k2: int)
    requires
        s1.to_set() == s2.to_set(),
        0 <= k < s1.len(),
    ensures
        0 <= k2 < s2.len() && s2[k2] == s1[k],
{
    assert(s1.to_set().contains(s1[k])) by {
        assert(s1.contains(s1[k]));
    }
    assert(s2.contains(s1[k]));
    choose|k2: int| 0 <= k2 < s2.len() && s2[k2] == s1[k]
}

proof fn lemma_peer_targets_same(users: Seq<User>, s1: Seq<VoiceEntry>, s2: Seq<VoiceEntry>, i: int, n: nat)
    requires
        forall|u: User| person_active(s1, u) == person_active(s2, u),
    ensures
        peer_targets(users, s1, i, n) == peer_targets(users, s2, i, n),
    decreases n,
{
    if n > 0 {
        lemma_peer_targets_same(users, s1, s2, i, (n - 1) as nat);
    }
}

/// The outcome depends on the snapshot's entries alone: replaying a transition
/// against the same snapshot, listed in any order, gives the same arrival, the
/// same message to the arriving person and the same members notified.
pub proof fn lemma_replay_same_outcome(
    users: Seq<User>,
    t: VoiceTransition,
    s1: Seq<VoiceEntry>,
    s2: Seq<VoiceEntry>,
)
    requires
        s1.to_set() == s2.to_set(),
    ensures
        arriving_person(users, t, s1) == arriving_person(users, t, s2),
        arriving_person(users, t, s1) matches Some(i) ==> self_target(users, s1, i) == self_target(
            users,
            s2,
            i,
        ) && peer_targets(users, s1, i, users.len()) == peer_targets(users, s2, i, users.len()),
{
    assert forall|a: Seq<VoiceEntry>, b: Seq<VoiceEntry>, id: u64|
        a.to_set() == b.to_set() && #[trigger] in_snapshot(a, id) implies #[trigger] in_snapshot(
        b,
        id,
    ) by {
        let k = choose|k: int| 0 <= k < a.len() && (#[trigger] a[k]).account_id == id;
        let k2 = lemma_same_entries(a, b, k);
        assert(b[k2].account_id == id);
    }
    assert forall|a: Seq<VoiceEntry>, b: Seq<VoiceEntry>, u: User, x: u64|
        a.to_set() == b.to_set() && #[trigger] other_account_present(a, u, x)
            implies #[trigger] other_account_present(b, u, x) by {
        let k = choose|k: int|
            0 <= k < a.len() && (#[trigger] a[k]).account_id != x && owns_account(u, a[k].account_id);
        let k2 = lemma_same_entries(a, b, k);
        assert(b[k2].account_id != x && owns_account(u, b[k2].account_id));
    }
    assert forall|a: Seq<VoiceEntry>, b: Seq<VoiceEntry>, u: User|
        a.to_set() == b.to_set() && #[trigger] person_active(a, u) implies #[trigger] person_active(
        b,
        u,
    ) by {
        let k = choose|k: int|
            0 <= k < a.len() && is_active(#[trigger] a[k]) && owns_account(u, a[k].account_id);
        let k2 = lemma_same_entries(a, b, k);
        assert(is_active(b[k2]) && owns_account(u, b[k2].account_id));
    }
    assert forall|u: User| person_active(s1, u) == person_active(s2, u) by {
        if person_active(s1, u) {
            assert(person_active(s2, u));
        }
        if person_active(s2, u) {
            assert(person_active(s1, u));
        }
    }
    lemma_peer_targets_same(users, s1, s2, 0, users.len());
    match owner(users, t.account_id) {
        Some(i) => {
            if other_account_present(s1, users[i], t.account_id) {
                assert(other_account_present(s2, users[i], t.account_id));
            }
            if other_account_present(s2, users[i], t.account_id) {
                assert(other_account_present(s1, users[i], t.account_id));
            }
            if in_snapshot(s1, users[i].discord_primary_id) {
                assert(in_snapshot(s2, users[i].discord_primary_id));
            }
            if in_snapshot(s2, users[i].discord_primary_id) {
                assert(in_snapshot(s1, users[i].discord_primary_id));
            }
            lemma_peer_targets_same(users, s1, s2, i, users.len());
        },
        None => {},
    }
}

} // verus!
