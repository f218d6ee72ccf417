use discord_join_notify::delivery::DeliveryTally;
use discord_join_notify::message::{compose, peer_message, self_message};
use discord_join_notify::presence::{
    plan_arrival, JoinPlan, PreviousVoiceState, Recipient, VoiceEntry, VoiceTransition,
};
use discord_join_notify::roster::{Roster, User};

const A: i64 = 100;
const B: i64 = 200;
const G: u64 = 77;

fn user(name: &str, primary: u64, secondary: Vec<u64>, chat: Option<i64>) -> User {
    User {
        name: name.to_string(),
        discord_primary_id: primary,
        discord_secondary_ids: secondary,
        telegram_chat_id: chat,
    }
}

fn alice_and_bob() -> Roster {
    Roster::new(vec![user("Alice", 1, vec![2], Some(A)), user("Bob", 3, vec![], Some(B))]).unwrap()
}

fn entry(id: u64, channel: Option<u64>, deaf: bool) -> VoiceEntry {
    VoiceEntry { account_id: id, channel_id: channel, self_deaf: deaf }
}

fn join(id: u64, channel: u64) -> VoiceTransition {
    VoiceTransition { account_id: id, guild_id: G, previous: None, new_channel: Some(channel), self_deaf: false }
}

#[test]
fn alt_account_arrival_notifies_self_and_peer() {
    let roster = alice_and_bob();
    let snapshot = vec![entry(2, Some(5), false)];
    let plan = plan_arrival(&roster, &join(2, 5), &snapshot).unwrap();
    assert_eq!(plan.person, 0);
    assert_eq!(plan.notify_self, Some(A));
    assert_eq!(plan.peers, vec![Recipient { user: 1, chat_id: B }]);
    let out = compose(&plan, "Alice", "G", Some("Alice-alt"));
    assert_eq!(out.len(), 2);
    assert_eq!(out[0].chat_id, A);
    assert_eq!(out[0].text, "You joined with Alice-alt on G");
    assert_eq!(out[1].chat_id, B);
    assert_eq!(out[1].text, "Alice joined on G!");
}

#[test]
fn second_arrival_does_not_notify_active_peer() {
    let roster = alice_and_bob();
    let snapshot = vec![entry(2, Some(5), false), entry(3, Some(5), false)];
    let plan = plan_arrival(&roster, &join(3, 5), &snapshot).unwrap();
    assert_eq!(plan.person, 1);
    assert_eq!(plan.notify_self, None);
    assert!(plan.peers.is_empty());
    assert!(compose(&plan, "Bob", "G", Some("Bob")).is_empty());
}

#[test]
fn deafened_peer_is_still_notified() {
    let roster = alice_and_bob();
    let snapshot = vec![entry(2, Some(5), true), entry(3, Some(5), false)];
    let plan = plan_arrival(&roster, &join(3, 5), &snapshot).unwrap();
    assert_eq!(plan.peers, vec![Recipient { user: 0, chat_id: A }]);
}

#[test]
fn peer_outside_any_channel_is_notified() {
    let roster = alice_and_bob();
    let snapshot = vec![entry(1, None, false), entry(3, Some(5), false)];
    let plan = plan_arrival(&roster, &join(3, 5), &snapshot).unwrap();
    assert_eq!(plan.peers, vec![Recipient { user: 0, chat_id: A }]);
}

#[test]
fn move_within_guild_is_silent() {
    let roster = alice_and_bob();
    let mut t = join(2, 6);
    t.previous = Some(PreviousVoiceState { guild_id: Some(G), channel_id: Some(5) });
    assert!(plan_arrival(&roster, &t, &vec![entry(2, Some(6), false)]).is_none());
}

#[test]
fn arrival_from_another_guild_counts() {
    let roster = alice_and_bob();
    let mut t = join(3, 6);
    t.previous = Some(PreviousVoiceState { guild_id: Some(G + 1), channel_id: Some(5) });
    let plan = plan_arrival(&roster, &t, &vec![entry(3, Some(6), false)]).unwrap();
    assert_eq!(plan.peers, vec![Recipient { user: 0, chat_id: A }]);
}

#[test]
fn departure_is_silent() {
    let roster = alice_and_bob();
    let t = VoiceTransition { account_id: 3, guild_id: G, previous: None, new_channel: None, self_deaf: false };
    assert!(plan_arrival(&roster, &t, &vec![]).is_none());
}

#[test]
fn unknown_account_is_silent() {
    let roster = alice_and_bob();
    assert!(plan_arrival(&roster, &join(42, 5), &vec![entry(42, Some(5), false)]).is_none());
}

#[test]
fn other_account_of_same_person_is_silent_even_deafened() {
    let roster = alice_and_bob();
    let snapshot = vec![entry(1, None, true), entry(2, Some(5), false)];
    assert!(plan_arrival(&roster, &join(2, 5), &snapshot).is_none());
}

#[test]
fn no_chat_means_no_self_notice() {
    let roster = Roster::new(vec![user("Alice", 1, vec![2], None), user("Bob", 3, vec![], None)]).unwrap();
    let plan = plan_arrival(&roster, &join(2, 5), &vec![entry(2, Some(5), false)]).unwrap();
    assert_eq!(plan.notify_self, None);
    assert!(plan.peers.is_empty());
}

#[test]
fn replay_gives_same_plan_in_any_order() {
    let roster = alice_and_bob();
    let s1 = vec![entry(2, Some(5), false), entry(9, Some(5), false)];
    let s2 = vec![entry(9, Some(5), false), entry(2, Some(5), false)];
    let first = plan_arrival(&roster, &join(2, 5), &s1).unwrap();
    let again = plan_arrival(&roster, &join(2, 5), &s1).unwrap();
    let reordered = plan_arrival(&roster, &join(2, 5), &s2).unwrap();
    assert_eq!((first.person, first.notify_self, first.peers.clone()), (again.person, again.notify_self, again.peers.clone()));
    assert_eq!((first.person, first.notify_self, first.peers), (reordered.person, reordered.notify_self, reordered.peers));
}

#[test]
fn compose_without_account_name_keeps_peer_notices() {
    let plan = JoinPlan { person: 0, notify_self: Some(A), peers: vec![Recipient { user: 1, chat_id: B }] };
    let out = compose(&plan, "Alice", "Home", None);
    assert_eq!(out.len(), 1);
    assert_eq!(out[0].chat_id, B);
    assert_eq!(out[0].text, "Alice joined on Home!");
}

#[test]
fn message_texts() {
    assert_eq!(self_message("alt", "Guild"), "You joined with alt on Guild");
    assert_eq!(peer_message("Bob", "Guild"), "Bob joined on Guild!");
    assert_eq!(peer_message("", ""), " joined on !");
}

#[test]
fn tally_counts_and_saturates() {
    let mut t = DeliveryTally::new();
    t.record(true);
    t.record(false);
    t.record(true);
    assert_eq!(t, DeliveryTally { sent: 2, failed: 1 });
    let mut full = DeliveryTally { sent: u64::MAX, failed: 0 };
    full.record(true);
    assert_eq!(full.sent, u64::MAX);
}
