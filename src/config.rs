//! The configuration the notifier starts from.
use vstd::prelude::*;
use crate::roster::User;

verus! {

/// The two platforms' credentials and the roster's persons.
pub struct Config {
    pub discord_bot_token: String,
    pub telegram_bot_token: String,
    pub users: Vec<User>,
}

impl Config {
    /// A template for operators to fill in: placeholder tokens, one person
    /// with two secondary accounts and a chat, one with neither.
    pub fn example() -> (r: Config)
        ensures
            r.discord_bot_token@ == "<discord token>"@,
            r.telegram_bot_token@ == "<telegram token>"@,
            r.users@.len() == 2,
            r.users@[0].name@ == "User1"@,
            r.users@[0].discord_primary_id == 1234567890,
            r.users@[0].discord_secondary_ids@ == seq![2345678901u64, 3456789012u64],
            r.users@[0].telegram_chat_id == Some(123456i64),
            r.users@[1].name@ == "User2"@,
            r.users@[1].discord_primary_id == 567891234,
            r.users@[1].discord_secondary_ids@.len() == 0,
            r.users@[1].telegram_chat_id is None,
    {
        let first = User {
            name: String::from_str("User1"),
            discord_primary_id: 1234567890,
            discord_secondary_ids: vec![2345678901u64, 3456789012u64],
            telegram_chat_id: Some(123456),
        };
        let second = User {
            name: String::from_str("User2"),
            discord_primary_id: 567891234,
            discord_secondary_ids: Vec::new(),
            telegram_chat_id: None,
        };
        Config {
            discord_bot_token: String::from_str("<discord token>"),
            telegram_bot_token: String::from_str("<telegram token>"),
            users: vec![first, second],
        }
    }
}

} // verus!
