//! The presence correlator: from a voice-state transition, the guild's voice
//! snapshot and the roster, to the notifications that the transition calls for.
use vstd::prelude::*;
use crate::roster::{owner, owns_account, Roster, User};

verus! {

/// One connected account in a guild's voice snapshot.
#[derive(Debug, Clone, Copy, PartialEq, Eq)]
pub struct VoiceEntry {
    pub account_id: u64,
    /// The voice channel the account is in, if any.
    pub channel_id: Option<u64>,
    /// Connected but not listening.
    pub self_deaf: bool,
}

/// The voice state that an account had before a transition.
#[derive(Debug, Clone, Copy, PartialEq, Eq)]
pub struct PreviousVoiceState {
    pub guild_id: Option<u64>,
    pub channel_id: Option<u64>,
}

/// A change of one account's voice state within a guild.
#[derive(Debug, Clone, Copy, PartialEq, Eq)]
pub struct VoiceTransition {
    pub account_id: u64,
    pub guild_id: u64,
    /// Absent on the first observation of the account.
    pub previous: Option<PreviousVoiceState>,
    /// Absent when the account left voice altogether.
    pub new_channel: Option<u64>,
    pub self_deaf: bool,
}

/// A roster member to be told about an arrival, and where.
#[derive(Debug, Clone, Copy, PartialEq, Eq)]
pub struct Recipient {
    /// Index of the member in the roster.
    pub user: usize,
    pub chat_id: i64,
}

/// What a genuine arrival of a roster member calls for.
#[derive(Debug)]
pub struct JoinPlan {
    /// Index in the roster of the person who arrived.
    pub person: usize,
    /// The arriving person's own chat, when they are told that they joined
    /// with another account than their primary one.
    pub notify_self: Option<i64>,
    /// The other members to be told of the arrival, in roster order.
    pub peers: Vec<Recipient>,
}

/// The transition moves within the guild where the account already was.
pub open spec fn guild_unchanged(t: VoiceTransition) -> bool {
    t.previous matches Some(p) && p.guild_id == Some(t.guild_id)
}

/// The account `id` has an entry in the snapshot.
pub open spec fn in_snapshot(s: Seq<VoiceEntry>, id: u64) -> bool {
    exists|k: int| 0 <= k < s.len() && (#[trigger] s[k]).account_id == id
}

/// An account of `u` other than `arriving` has an entry in the snapshot.
pub open spec fn other_account_present(s: Seq<VoiceEntry>, u: User, arriving: u64) -> bool {
    exists|k: int|
        0 <= k < s.len() && (#[trigger] s[k]).account_id != arriving && owns_account(
            u,
            s[k].account_id,
        )
}

/// In a channel and listening.
pub open spec fn is_active(e: VoiceEntry) -> bool {
    e.channel_id is Some && !e.self_deaf
}

/// Some account of `u` is active in the snapshot.
pub open spec fn person_active(s: Seq<VoiceEntry>, u: User) -> bool {
    exists|k: int| 0 <= k < s.len() && is_active(#[trigger] s[k]) && owns_account(u, s[k].account_id)
}

/// The roster index of the person for whom `t` is a genuine arrival, if it is
/// one: not a move inside the guild, not a departure, by a roster member, and
/// with no other account of that member in the snapshot.
pub open spec fn arriving_person(users: Seq<User>, t: VoiceTransition, s: Seq<VoiceEntry>) -> Option<int> {
    if guild_unchanged(t) || t.new_channel is None {
        None
    } else {
        match owner(users, t.account_id) {
            None => None,
            Some(i) => if other_account_present(s, users[i], t.account_id) {
                None
            } else {
                Some(i)
            },
        }
    }
}

/// Where person `i` is told of their own arrival: their chat, unless their
/// primary account is in the snapshot.
pub open spec fn self_target(users: Seq<User>, s: Seq<VoiceEntry>, i: int) -> Option<i64> {
    if in_snapshot(s, users[i].discord_primary_id) {
        None
    } else {
        users[i].telegram_chat_id
    }
}

/// Member `j` is to be told that person `i` arrived.
pub open spec fn peer_wanted(users: Seq<User>, s: Seq<VoiceEntry>, i: int, j: int) -> bool {
    &&& users[j].discord_primary_id != users[i].discord_primary_id
    &&& users[j].telegram_chat_id is Some
    &&& !person_active(s, users[j])
}

/// The members among the first `n` of the roster who are told that person `i`
/// arrived, in roster order.
pub open spec fn peer_targets(users: Seq<User>, s: Seq<VoiceEntry>, i: int, n: nat) -> Seq<Recipient>
    decreases n,
{
    if n == 0 {
        Seq::empty()
    } else {
        let before = peer_targets(users, s, i, (n - 1) as nat);
        let j = n - 1;
        if peer_wanted(users, s, i, j) {
            before.push(Recipient { user: j as usize, chat_id: users[j].telegram_chat_id->0 })
        } else {
            before
        }
    }
}

fn account_in_snapshot(snapshot: &Vec<VoiceEntry>, id: u64) -> (r: bool)
    ensures
        r == in_snapshot(snapshot@, id),
{
    let mut k: usize = 0;
    while k < snapshot.len()
        invariant
            k <= snapshot@.len(),
            forall|m: int| 0 <= m < k ==> (#[trigger] snapshot@[m]).account_id != id,
        decreases snapshot@.len() - k,
    {
        if snapshot[k].account_id == id {
            return true;
        }
        k = k + 1;
    }
    false
}

fn other_account_in_snapshot(snapshot: &Vec<VoiceEntry>, u: &User, arriving: u64) -> (r: bool)
    ensures
        r == other_account_present(snapshot@, *u, arriving),
{
    let mut k: usize = 0;
    while k < snapshot.len()
        invariant
            k <= snapshot@.len(),
            forall|m: int|
                0 <= m < k ==> !((#[trigger] snapshot@[m]).account_id != arriving && owns_account(
                    *u,
                    snapshot@[m].account_id,
                )),
        decreases snapshot@.len() - k,
    {
        let id = snapshot[k].account_id;
        if id != arriving && u.has_discord_id(id) {
            return true;
        }
        k = k + 1;
    }
    false
}

fn active_in_snapshot(snapshot: &Vec<VoiceEntry>, u: &User) -> (r: bool)
    ensures
        r == person_active(snapshot@, *u),
{
    let mut k: usize = 0;
    while k < snapshot.len()
        invariant
            k <= snapshot@.len(),
            forall|m: int|
                0 <= m < k ==> !(is_active(#[trigger] snapshot@[m]) && owns_account(
                    *u,
                    snapshot@[m].account_id,
                )),
        decreases snapshot@.len() - k,
    {
        let e = snapshot[k];
        if e.channel_id.is_some() && !e.self_deaf && u.has_discord_id(e.account_id) {
            return true;
        }
        k = k + 1;
    }
    false
}

/// Decides whether `t` is a genuine arrival of a roster member and, if so,
/// whom to notify. `snapshot` is the guild's voice state after the transition.
pub fn plan_arrival(roster: &Roster, t: &VoiceTransition, snapshot: &Vec<VoiceEntry>) -> (r: Option<JoinPlan>)
    ensures
        r is Some <==> arriving_person(roster@, *t, snapshot@) is Some,
        r matches Some(p) ==> {
            &&& arriving_person(roster@, *t, snapshot@) == Some(p.person as int)
            &&& p.notify_self == self_target(roster@, snapshot@, p.person as int)
            &&& p.peers@ == peer_targets(roster@, snapshot@, p.person as int, roster@.len())
        },
{
    let moved_within = match t.previous {
        Some(p) => p.guild_id == Some(t.guild_id),
        None => false,
    };
    if moved_within || t.new_channel.is_none() {
        return None;
    }
    let person = match roster.resolve(t.account_id) {
        Some(i) => i,
        None => {
            return None;
        },
    };
    let users = roster.users();
    proof {
        crate::roster::lemma_owner_from(roster@, t.account_id, 0);
    }
    let user = &users[person];
    if other_account_in_snapshot(snapshot, user, t.account_id) {
        return None;
    }
    let notify_self = if account_in_snapshot(snapshot, user.discord_primary_id) {
        None
    } else {
        user.telegram_chat_id
    };
    let mut peers: Vec<Recipient> = Vec::new();
    let mut j: usize = 0;
    while j < users.len()
        invariant
            users@ == roster@,
            person < users@.len(),
            *user == users@[person as int],
            j <= users@.len(),
            peers@ == peer_targets(roster@, snapshot@, person as int, j as nat),
        decreases users@.len() - j,
    {
        let other = &users[j];
        if other.discord_primary_id != user.discord_primary_id && !active_in_snapshot(snapshot, other) {
            match other.telegram_chat_id {
                Some(chat_id) => {
                    peers.push(Recipient { user: j, chat_id });
                },
                None => {},
            }
        }
        j = j + 1;
    }
    Some(JoinPlan { person, notify_self, peers })
}

} // verus!
