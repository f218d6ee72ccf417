use discord_join_notify::config::Config;
use discord_join_notify::roster::{Roster, RosterError, User};

fn user(name: &str, primary: u64, secondary: Vec<u64>, chat: Option<i64>) -> User {
    User {
        name: name.to_string(),
        discord_primary_id: primary,
        discord_secondary_ids: secondary,
        telegram_chat_id: chat,
    }
}

#[test]
fn has_discord_id_primary_and_secondary() {
    let u = user("Alice", 1, vec![2, 5], Some(10));
    assert!(u.has_discord_id(1));
    assert!(u.has_discord_id(2));
    assert!(u.has_discord_id(5));
    assert!(!u.has_discord_id(3));
}

#[test]
fn roster_resolves_primary_and_secondary() {
    let r = Roster::new(vec![user("Alice", 1, vec![2], Some(10)), user("Bob", 3, vec![], Some(20))]).unwrap();
    assert_eq!(r.resolve(1), Some(0));
    assert_eq!(r.resolve(2), Some(0));
    assert_eq!(r.resolve(3), Some(1));
    assert_eq!(r.resolve(4), None);
    assert_eq!(r.users().len(), 2);
}

#[test]
fn roster_same_person() {
    let r = Roster::new(vec![user("Alice", 1, vec![2], Some(10)), user("Bob", 3, vec![], Some(20))]).unwrap();
    assert!(r.is_same_person(2, 1));
    assert!(r.is_same_person(1, 2));
    assert!(r.is_same_person(3, 3));
    assert!(!r.is_same_person(1, 3));
    assert!(!r.is_same_person(9, 9));
}

#[test]
fn roster_rejects_zero_primary() {
    let e = Roster::new(vec![user("Alice", 1, vec![], None), user("Zed", 0, vec![], None)]).err();
    assert_eq!(e, Some(RosterError::ZeroAccountId(1)));
}

#[test]
fn roster_rejects_zero_secondary() {
    let e = Roster::new(vec![user("Alice", 1, vec![4, 0], None)]).err();
    assert_eq!(e, Some(RosterError::ZeroAccountId(0)));
}

#[test]
fn roster_rejects_shared_account() {
    let e = Roster::new(vec![
        user("Alice", 1, vec![2], None),
        user("Bob", 3, vec![], None),
        user("Carol", 5, vec![2], None),
    ])
    .err();
    assert_eq!(e, Some(RosterError::SharedAccountId(2)));
}

#[test]
fn roster_accepts_account_listed_twice_for_one_person() {
    let r = Roster::new(vec![user("Alice", 1, vec![1, 2], None)]);
    assert!(r.is_ok());
}

#[test]
fn roster_empty_is_accepted() {
    let r = Roster::new(vec![]).unwrap();
    assert_eq!(r.resolve(1), None);
}

#[test]
fn example_config_is_a_valid_roster() {
    let c = Config::example();
    assert_eq!(c.discord_bot_token, "<discord token>");
    assert_eq!(c.telegram_bot_token, "<telegram token>");
    assert_eq!(c.users.len(), 2);
    assert_eq!(c.users[0].discord_secondary_ids, vec![2345678901, 3456789012]);
    assert_eq!(c.users[1].telegram_chat_id, None);
    let r = Roster::new(c.users).unwrap();
    assert_eq!(r.resolve(3456789012), Some(0));
    assert_eq!(r.resolve(567891234), Some(1));
}
