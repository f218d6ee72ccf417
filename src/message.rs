//! The text of the notifications, and the list of them that a join plan yields.
use vstd::prelude::*;
use crate::presence::{JoinPlan, Recipient};

verus! {

/// A message ready to be handed to the delivery side.
#[derive(Debug)]
pub struct PendingNotification {
    pub chat_id: i64,
    pub text: String,
}

/// "You joined with <account> on <guild>".
pub open spec fn self_text(account: Seq<char>, guild: Seq<char>) -> Seq<char> {
    "You joined with "@ + account + " on "@ + guild
}

/// "<person> joined on <guild>!".
pub open spec fn peer_text(person: Seq<char>, guild: Seq<char>) -> Seq<char> {
    person + " joined on "@ + guild + "!"@
}

/// The message that tells a person which account they joined with.
pub fn self_message(account_name: &str, guild_name: &str) -> (r: String)
    ensures
        r@ == self_text(account_name@, guild_name@),
{
    let mut r = String::from_str("You joined with ");
    r.append(account_name);
    r.append(" on ");
    r.append(guild_name);
    r
}

/// The message that tells the other members who joined.
pub fn peer_message(person_name: &str, guild_name: &str) -> (r: String)
    ensures
        r@ == peer_text(person_name@, guild_name@),
{
    let mut r = String::from_str(person_name);
    r.append(" joined on ");
    r.append(guild_name);
    r.append("!");
    r
}

/// The notifications of a plan. `account_name` is the display name of the
/// account that arrived; without it the message to the arriving person is
/// left out, the others are not.
pub fn compose(plan: &JoinPlan, person_name: &str, guild_name: &str, account_name: Option<&str>) -> (r: Vec<PendingNotification>)
    ensures
        ({
            let own = plan.notify_self is Some && account_name is Some;
            let off: int = if own { 1 } else { 0 };
            &&& r@.len() == off + plan.peers@.len()
            &&& own ==> r@[0].chat_id == plan.notify_self->0 && r@[0].text@ == self_text(
                account_name->0@,
                guild_name@,
            )
            &&& forall|k: int|
                0 <= k < plan.peers@.len() ==> (#[trigger] r@[off + k]).chat_id
                    == plan.peers@[k].chat_id && r@[off + k].text@ == peer_text(
                    person_name@,
                    guild_name@,
                )
        }),
{
    let mut r: Vec<PendingNotification> = Vec::new();
    match (plan.notify_self, account_name) {
        (Some(chat_id), Some(account)) => {
            r.push(PendingNotification { chat_id, text: self_message(account, guild_name) });
        },
        _ => {},
    }
    let off = r.len();
    let mut k: usize = 0;
    while k < plan.peers.len()
        invariant
            off == (if plan.notify_self is Some && account_name is Some { 1int } else { 0 }),
            k <= plan.peers@.len(),
            r@.len() == off + k,
            (plan.notify_self is Some && account_name is Some) ==> r@[0].chat_id
                == plan.notify_self->0 && r@[0].text@ == self_text(account_name->0@, guild_name@),
            forall|m: int|
                0 <= m < k ==> (#[trigger] r@[off + m]).chat_id == plan.peers@[m].chat_id
                    && r@[off + m].text@ == peer_text(person_name@, guild_name@),
        decreases plan.peers@.len() - k,
    {
        let p: Recipient = plan.peers[k];
        r.push(PendingNotification { chat_id: p.chat_id, text: peer_message(person_name, guild_name) });
        k = k + 1;
    }
    r
}

} // verus!
