//! The identity roster: persons and the accounts that belong to them.
use vstd::prelude::*;

verus! {

/// One person of the roster, as read from the configuration.
pub struct User {
    /// Display label, used in the messages about this person.
    pub name: String,
    /// The canonical source-platform account of the person.
    pub discord_primary_id: u64,
    /// Further source-platform accounts of the same person.
    pub discord_secondary_ids: Vec<u64>,
    /// Where this person is notified; `None` means never.
    pub telegram_chat_id: Option<i64>,
}

/// Whether `id` is the primary or one of the secondary accounts of `u`.
pub open spec fn owns_account(u: User, id: u64) -> bool {
    u.discord_primary_id == id || u.discord_secondary_ids@.contains(id)
}

impl User {
    pub fn has_discord_id(&self, id: u64) -> (r: bool)
        ensures
            r == owns_account(*self, id),
    {
        if self.discord_primary_id == id {
            return true;
        }
        let mut i: usize = 0;
        while i < self.discord_secondary_ids.len()
            invariant
                i <= self.discord_secondary_ids@.len(),
                forall|k: int| 0 <= k < i ==> self.discord_secondary_ids@[k] != id,
            decreases self.discord_secondary_ids@.len() - i,
        {
            if self.discord_secondary_ids[i] == id {
                return true;
            }
            i = i + 1;
        }
        false
    }
}


/// Index of the first user of `users`, from `from` on, that owns `id`.
pub open spec fn owner_from(users: Seq<User>, id: u64, from: nat) -> Option<int>
    decreases users.len() - from,
{
    if from >= users.len() {
        None
    } else if owns_account(users[from as int], id) {
        Some(from as int)
    } else {
        owner_from(users, id, from + 1)
    }
}

/// What `owner_from` finds is a user at or after `from` that owns `id`, and
/// before it none does; when it finds nothing, no user from `from` on owns `id`.
pub proof fn lemma_owner_from(users: Seq<User>, id: u64, from: nat)
    ensures
        owner_from(users, id, from) matches Some(i) ==> from <= i < users.len() && owns_account(
            users[i],
            id,
        ) && forall|k: int| from <= k < i ==> !owns_account(#[trigger] users[k], id),
        owner_from(users, id, from) is None ==> forall|k: int|
            from <= k < users.len() ==> !owns_account(#[trigger] users[k], id),
    decreases users.len() - from,
{
    if from < users.len() && !owns_account(users[from as int], id) {
        lemma_owner_from(users, id, from + 1);
    }
}

/// Index of the first user of `users` that owns `id`, if any does.
pub open spec fn owner(users: Seq<User>, id: u64) -> Option<int> {
    owner_from(users, id, 0)
}

/// Whether `candidate` belongs to the person who owns `id`.
pub open spec fn same_person(users: Seq<User>, id: u64, candidate: u64) -> bool {
    match owner(users, id) {
        Some(i) => owns_account(users[i], candidate),
        None => false,
    }
}

/// No account id is owned by two different users.
pub open spec fn accounts_disjoint(users: Seq<User>) -> bool {
    forall|i: int, j: int, id: u64|
        0 <= i < users.len() && 0 <= j < users.len() && i != j && #[trigger] owns_account(
            users[i],
            id,
        ) ==> !#[trigger] owns_account(users[j], id)
}

/// Every account id of `u` is a valid (non-zero) identifier.
pub open spec fn ids_valid(u: User) -> bool {
    u.discord_primary_id != 0 && !u.discord_secondary_ids@.contains(0)
}

/// Why a list of users cannot form a roster.
#[derive(Debug, Clone, Copy, PartialEq, Eq)]
pub enum RosterError {
    /// The user at this index lists the account id zero, which no account has.
    ZeroAccountId(usize),
    /// This account id is listed for two different users.
    SharedAccountId(u64),
}

/// The persons that the notifier knows, fixed once built.
pub struct Roster {
    users: Vec<User>,
}

impl View for Roster {
    type V = Seq<User>;

    closed spec fn view(&self) -> Seq<User> {
        self.users@
    }
}

/// Index of the first `x` in `v`, if `v` holds it.
fn position_of(v: &Vec<u64>, x: u64) -> (r: Option<usize>)
    ensures
        r is None <==> !v@.contains(x),
        r matches Some(k) ==> k < v@.len() && v@[k as int] == x,
{
    let mut i: usize = 0;
    while i < v.len()
        invariant
            i <= v@.len(),
            forall|k: int| 0 <= k < i ==> v@[k] != x,
        decreases v@.len() - i,
    {
        if v[i] == x {
            return Some(i);
        }
        i = i + 1;
    }
    None
}

impl Roster {
    pub open spec fn wf(&self) -> bool {
        &&& accounts_disjoint(self@)
        &&& forall|i: int| 0 <= i < self@.len() ==> ids_valid(#[trigger] self@[i])
    }

    /// Builds a roster, refusing a zero account id and an account id that two
    /// users share.
    pub fn new(users: Vec<User>) -> (r: Result<Roster, RosterError>)
        ensures
            r matches Ok(ro) ==> ro@ == users@ && ro.wf(),
            r is Ok <==> (accounts_disjoint(users@) && forall|i: int|
                0 <= i < users@.len() ==> ids_valid(#[trigger] users@[i])),
            r matches Err(RosterError::ZeroAccountId(_)) <==> exists|i: int|
                0 <= i < users@.len() && !ids_valid(#[trigger] users@[i]),
            r matches Err(RosterError::ZeroAccountId(i)) ==> i < users@.len() && !ids_valid(
                users@[i as int],
            ),
            r matches Err(RosterError::SharedAccountId(id)) ==> exists|i: int, j: int|
                0 <= i < users@.len() && 0 <= j < users@.len() && i != j && owns_account(
                    users@[i],
                    id,
                ) && owns_account(users@[j], id),
    {
        let mut i: usize = 0;
        while i < users.len()
            invariant
                i <= users@.len(),
                forall|k: int| 0 <= k < i ==> ids_valid(#[trigger] users@[k]),
            decreases users@.len() - i,
        {
            let u = &users[i];
            if u.discord_primary_id == 0 {
                return Err(RosterError::ZeroAccountId(i));
            }
            if position_of(&u.discord_secondary_ids, 0).is_some() {
                return Err(RosterError::ZeroAccountId(i));
            }
            i = i + 1;
        }
        // Every account of user `i` is looked up in each later user.
        let mut i: usize = 0;
        while i < users.len()
            invariant
                i <= users@.len(),
                forall|k: int| 0 <= k < users@.len() ==> ids_valid(#[trigger] users@[k]),
                forall|a: int, b: int, id: u64|
                    0 <= a < i && a < b < users@.len() && #[trigger] owns_account(users@[a], id)
                        ==> !#[trigger] owns_account(users@[b], id),
            decreases users@.len() - i,
        {
            let mut j: usize = i + 1;
            while j < users.len()
                invariant
                    i < users@.len(),
                    i + 1 <= j <= users@.len(),
                    forall|k: int| 0 <= k < users@.len() ==> ids_valid(#[trigger] users@[k]),
                    forall|a: int, b: int, id: u64|
                        0 <= a < i && a < b < users@.len() && #[trigger] owns_account(
                            users@[a],
                            id,
                        ) ==> !#[trigger] owns_account(users@[b], id),
                    forall|b: int, id: u64|
                        i < b < j && #[trigger] owns_account(users@[i as int], id)
                            ==> !#[trigger] owns_account(users@[b], id),
                decreases users@.len() - j,
            {
                match shared_account(&users[i], &users[j]) {
                    Some(id) => {
                        return Err(RosterError::SharedAccountId(id));
                    },
                    None => {},
                }
                j = j + 1;
            }
            i = i + 1;
        }
        assert(accounts_disjoint(users@)) by {
            assert forall|a: int, b: int, id: u64|
                0 <= a < users@.len() && 0 <= b < users@.len() && a != b
                    && #[trigger] owns_account(users@[a], id) implies !#[trigger] owns_account(
                users@[b],
                id,
            ) by {
                if a > b {
                    if owns_account(users@[b], id) {
                        assert(!owns_account(users@[a], id));
                    }
                }
            }
        }
        Ok(Roster { users })
    }

    /// The users of the roster, in configuration order.
    pub fn users(&self) -> (r: &Vec<User>)
        ensures
            r@ == self@,
    {
        &self.users
    }

    /// The index of the user who owns `account_id`; the first one if several
    /// do.
    pub fn resolve(&self, account_id: u64) -> (r: Option<usize>)
        ensures
            r matches Some(i) ==> owner(self@, account_id) == Some(i as int),
            r is None ==> owner(self@, account_id) is None,
    {
        let mut i: usize = 0;
        while i < self.users.len()
            invariant
                i <= self@.len(),
                owner(self@, account_id) == owner_from(self@, account_id, i as nat),
            decreases self@.len() - i,
        {
            if self.users[i].has_discord_id(account_id) {
                return Some(i);
            }
            i = i + 1;
        }
        None
    }

    /// Whether `candidate_id` belongs to the person who owns `account_id`.
    pub fn is_same_person(&self, account_id: u64, candidate_id: u64) -> (r: bool)
        ensures
            r == same_person(self@, account_id, candidate_id),
    {
        match self.resolve(account_id) {
            Some(i) => {
                proof {
                    lemma_owner_from(self@, account_id, 0);
                }
                self.users[i].has_discord_id(candidate_id)
            },
            None => false,
        }
    }
}

/// An account id that both `a` and `b` own, if there is one.
fn shared_account(a: &User, b: &User) -> (r: Option<u64>)
    ensures
        r is None <==> forall|id: u64| owns_account(*a, id) ==> !owns_account(*b, id),
        r matches Some(id) ==> owns_account(*a, id) && owns_account(*b, id),
{
    if b.has_discord_id(a.discord_primary_id) {
        return Some(a.discord_primary_id);
    }
    let mut k: usize = 0;
    while k < a.discord_secondary_ids.len()
        invariant
            k <= a.discord_secondary_ids@.len(),
            !owns_account(*b, a.discord_primary_id),
            forall|m: int| 0 <= m < k ==> !owns_account(*b, a.discord_secondary_ids@[m]),
        decreases a.discord_secondary_ids@.len() - k,
    {
        let id = a.discord_secondary_ids[k];
        if b.has_discord_id(id) {
            return Some(id);
        }
        k = k + 1;
    }
    assert forall|id: u64| owns_account(*a, id) implies !owns_account(*b, id) by {
        if id != a.discord_primary_id {
            let m = a.discord_secondary_ids@.index_of(id);
        }
    }
    None
}

} // verus!
