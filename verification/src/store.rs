//! The identity store: eight append-only tables. The current state of a
//! logical object is the row that was stored last under its key.
use crate::db_types::{
    ApiKey, Email, ParentPermission, Password, PasswordReset, User, UserData,
    VerificationChallenge,
};
use crate::utils::str_eq;
use vstd::prelude::*;

verus! {

/// The most recently stored element of `s` that satisfies `p`.
pub open spec fn latest<T>(s: Seq<T>, p: spec_fn(T) -> bool) -> Option<T>
    decreases s.len(),
{
    if s.len() == 0 {
        None
    } else if p(s.last()) {
        Some(s.last())
    } else {
        latest(s.drop_last(), p)
    }
}

/// An element that satisfies `p`, and which no later one does, is the latest.
pub proof fn lemma_latest_found<T>(s: Seq<T>, p: spec_fn(T) -> bool, i: int)
    requires
        0 <= i < s.len(),
        p(s[i]),
        forall|j: int| i < j < s.len() ==> !p(#[trigger] s[j]),
    ensures
        latest(s, p) == Some(s[i]),
    decreases s.len(),
{
    if i < s.len() - 1 {
        assert(!p(s[s.len() - 1]));
        lemma_latest_found(s.drop_last(), p, i);
    }
}

/// Where no element satisfies `p`, none is the latest.
pub proof fn lemma_latest_none<T>(s: Seq<T>, p: spec_fn(T) -> bool)
    requires
        forall|j: int| 0 <= j < s.len() ==> !p(#[trigger] s[j]),
    ensures
        latest(s, p) is None,
    decreases s.len(),
{
    if s.len() > 0 {
        assert(!p(s[s.len() - 1]));
        lemma_latest_none(s.drop_last(), p);
    }
}

/// Where none is the latest, no element satisfies `p`.
pub proof fn lemma_absent<T>(s: Seq<T>, p: spec_fn(T) -> bool)
    requires
        latest(s, p) is None,
    ensures
        forall|j: int| 0 <= j < s.len() ==> !p(#[trigger] s[j]),
    decreases s.len(),
{
    if s.len() > 0 {
        lemma_absent(s.drop_last(), p);
        assert forall|j: int| 0 <= j < s.len() implies !p(#[trigger] s[j]) by {
            if j < s.len() - 1 {
                assert(s[j] == s.drop_last()[j]);
            }
        }
    }
}

/// The latest element sits at some index, satisfies `p`, and nothing after it
/// does.
pub proof fn lemma_latest_some<T>(s: Seq<T>, p: spec_fn(T) -> bool) -> (i: int)
    requires
        latest(s, p) is Some,
    ensures
        0 <= i < s.len(),
        latest(s, p) == Some(s[i]),
        p(s[i]),
        forall|j: int| i < j < s.len() ==> !p(#[trigger] s[j]),
    decreases s.len(),
{
    if p(s.last()) {
        s.len() - 1
    } else {
        let i = lemma_latest_some(s.drop_last(), p);
        assert forall|j: int| i < j < s.len() implies !p(#[trigger] s[j]) by {
            if j < s.len() - 1 {
                assert(s[j] == s.drop_last()[j]);
            }
        }
        i
    }
}

/// The latest element after one more was stored.
pub proof fn lemma_latest_push<T>(s: Seq<T>, p: spec_fn(T) -> bool, x: T)
    ensures
        latest(s.push(x), p) == if p(x) {
            Some(x)
        } else {
            latest(s, p)
        },
{
    assert(s.push(x).drop_last() == s);
}

/// The first `n` elements of `s`, or all of them where `s` holds no more.
pub open spec fn first<T>(s: Seq<T>, n: usize) -> Seq<T> {
    if n <= s.len() {
        s.subrange(0, n as int)
    } else {
        s
    }
}

/// How many rows each table of a store holds: a mark to cut the store back
/// to.
#[derive(Clone, Copy, Debug, PartialEq, Eq)]
pub struct Size {
    pub users: usize,
    pub user_data: usize,
    pub verification_challenges: usize,
    pub emails: usize,
    pub parent_permissions: usize,
    pub password_resets: usize,
    pub passwords: usize,
    pub api_keys: usize,
}

/// The tables of the store, each in the order in which its rows were stored.
pub struct Tables {
    pub users: Seq<User>,
    pub user_data: Seq<UserData>,
    pub verification_challenges: Seq<VerificationChallenge>,
    pub emails: Seq<Email>,
    pub parent_permissions: Seq<ParentPermission>,
    pub password_resets: Seq<PasswordReset>,
    pub passwords: Seq<Password>,
    pub api_keys: Seq<ApiKey>,
}

impl Tables {
    /// The tables of a store that holds no row.
    pub open spec fn empty() -> Tables {
        Tables {
            users: Seq::empty(),
            user_data: Seq::empty(),
            verification_challenges: Seq::empty(),
            emails: Seq::empty(),
            parent_permissions: Seq::empty(),
            password_resets: Seq::empty(),
            passwords: Seq::empty(),
            api_keys: Seq::empty(),
        }
    }

    /// Whether `later` holds every row of these tables, in place, and
    /// possibly more rows after them: rows are appended, never changed or
    /// removed.
    pub open spec fn extended_to(self, later: Tables) -> bool {
        &&& self.users.is_prefix_of(later.users)
        &&& self.user_data.is_prefix_of(later.user_data)
        &&& self.verification_challenges.is_prefix_of(later.verification_challenges)
        &&& self.emails.is_prefix_of(later.emails)
        &&& self.parent_permissions.is_prefix_of(later.parent_permissions)
        &&& self.password_resets.is_prefix_of(later.password_resets)
        &&& self.passwords.is_prefix_of(later.passwords)
        &&& self.api_keys.is_prefix_of(later.api_keys)
    }

    /// Whether the number of rows of each table is a machine number, as it
    /// is of every store.
    pub open spec fn fits(self) -> bool {
        &&& self.users.len() <= usize::MAX
        &&& self.user_data.len() <= usize::MAX
        &&& self.verification_challenges.len() <= usize::MAX
        &&& self.emails.len() <= usize::MAX
        &&& self.parent_permissions.len() <= usize::MAX
        &&& self.password_resets.len() <= usize::MAX
        &&& self.passwords.len() <= usize::MAX
        &&& self.api_keys.len() <= usize::MAX
    }

    /// How many rows each table holds.
    pub open spec fn size(self) -> Size {
        Size {
            users: self.users.len() as usize,
            user_data: self.user_data.len() as usize,
            verification_challenges: self.verification_challenges.len() as usize,
            emails: self.emails.len() as usize,
            parent_permissions: self.parent_permissions.len() as usize,
            password_resets: self.password_resets.len() as usize,
            passwords: self.passwords.len() as usize,
            api_keys: self.api_keys.len() as usize,
        }
    }

    /// These tables cut back to the sizes `size`: of each table the first
    /// rows, as many as `size` says, or all where it holds no more.
    pub open spec fn cut_to(self, size: Size) -> Tables {
        Tables {
            users: first(self.users, size.users),
            user_data: first(self.user_data, size.user_data),
            verification_challenges: first(
                self.verification_challenges,
                size.verification_challenges,
            ),
            emails: first(self.emails, size.emails),
            parent_permissions: first(self.parent_permissions, size.parent_permissions),
            password_resets: first(self.password_resets, size.password_resets),
            passwords: first(self.passwords, size.passwords),
            api_keys: first(self.api_keys, size.api_keys),
        }
    }

    /// Identifiers count the rows of a table from 1, and no two challenges
    /// and no two password resets share a hash.
    pub open spec fn wf(self) -> bool {
        &&& forall|i: int| 0 <= i < self.users.len() ==> (#[trigger] self.users[i]).user_id == i + 1
        &&& forall|i: int|
            0 <= i < self.user_data.len() ==> (#[trigger] self.user_data[i]).user_data_id == i + 1
        &&& forall|i: int|
            0 <= i < self.emails.len() ==> (#[trigger] self.emails[i]).email_id == i + 1
        &&& forall|i: int|
            0 <= i < self.parent_permissions.len() ==> (
            #[trigger] self.parent_permissions[i]).parent_permission_id == i + 1
        &&& forall|i: int|
            0 <= i < self.passwords.len() ==> (#[trigger] self.passwords[i]).password_id == i + 1
        &&& forall|i: int|
            0 <= i < self.api_keys.len() ==> (#[trigger] self.api_keys[i]).api_key_id == i + 1
        &&& forall|i: int, j: int|
            0 <= i < j < self.verification_challenges.len() ==> (
            #[trigger] self.verification_challenges[i]).verification_challenge_key_hash@ != (
            #[trigger] self.verification_challenges[j]).verification_challenge_key_hash@
        &&& forall|i: int, j: int|
            0 <= i < j < self.password_resets.len() ==> (
            #[trigger] self.password_resets[i]).password_reset_key_hash@ != (
            #[trigger] self.password_resets[j]).password_reset_key_hash@
    }
}

/// Why the store refused a row.
#[derive(Clone, Copy, Debug, PartialEq, Eq, Structural)]
pub enum StoreError {
    /// The table has no identifier left for another row.
    Full,
    /// A row with the same unique hash is already stored.
    Duplicate,
}

fn users_numbered(t: &Vec<User>) -> (r: bool)
    ensures
        r ==> forall|i: int| 0 <= i < t@.len() ==> (#[trigger] t@[i]).user_id == i + 1,
        !r ==> exists|i: int| 0 <= i < t@.len() && (#[trigger] t@[i]).user_id != i + 1,
{
    let mut i: usize = 0;
    while i < t.len()
        invariant
            i <= t@.len(),
            forall|j: int| 0 <= j < i ==> (#[trigger] t@[j]).user_id == j + 1,
        decreases t@.len() - i,
    {
        if t[i].user_id as i128 != i as i128 + 1 {
            assert(t@[i as int].user_id != i + 1);
            return false;
        }
        i += 1;
    }
    true
}

fn user_data_numbered(t: &Vec<UserData>) -> (r: bool)
    ensures
        r ==> forall|i: int| 0 <= i < t@.len() ==> (#[trigger] t@[i]).user_data_id == i + 1,
        !r ==> exists|i: int| 0 <= i < t@.len() && (#[trigger] t@[i]).user_data_id != i + 1,
{
    let mut i: usize = 0;
    while i < t.len()
        invariant
            i <= t@.len(),
            forall|j: int| 0 <= j < i ==> (#[trigger] t@[j]).user_data_id == j + 1,
        decreases t@.len() - i,
    {
        if t[i].user_data_id as i128 != i as i128 + 1 {
            assert(t@[i as int].user_data_id != i + 1);
            return false;
        }
        i += 1;
    }
    true
}

fn emails_numbered(t: &Vec<Email>) -> (r: bool)
    ensures
        r ==> forall|i: int| 0 <= i < t@.len() ==> (#[trigger] t@[i]).email_id == i + 1,
        !r ==> exists|i: int| 0 <= i < t@.len() && (#[trigger] t@[i]).email_id != i + 1,
{
    let mut i: usize = 0;
    while i < t.len()
        invariant
            i <= t@.len(),
            forall|j: int| 0 <= j < i ==> (#[trigger] t@[j]).email_id == j + 1,
        decreases t@.len() - i,
    {
        if t[i].email_id as i128 != i as i128 + 1 {
            assert(t@[i as int].email_id != i + 1);
            return false;
        }
        i += 1;
    }
    true
}

fn parent_permissions_numbered(t: &Vec<ParentPermission>) -> (r: bool)
    ensures
        r ==> forall|i: int| 0 <= i < t@.len() ==> (#[trigger] t@[i]).parent_permission_id == i + 1,
        !r ==> exists|i: int| 0 <= i < t@.len() && (#[trigger] t@[i]).parent_permission_id != i + 1,
{
    let mut i: usize = 0;
    while i < t.len()
        invariant
            i <= t@.len(),
            forall|j: int| 0 <= j < i ==> (#[trigger] t@[j]).parent_permission_id == j + 1,
        decreases t@.len() - i,
    {
        if t[i].parent_permission_id as i128 != i as i128 + 1 {
            assert(t@[i as int].parent_permission_id != i + 1);
            return false;
        }
        i += 1;
    }
    true
}

fn passwords_numbered(t: &Vec<Password>) -> (r: bool)
    ensures
        r ==> forall|i: int| 0 <= i < t@.len() ==> (#[trigger] t@[i]).password_id == i + 1,
        !r ==> exists|i: int| 0 <= i < t@.len() && (#[trigger] t@[i]).password_id != i + 1,
{
    let mut i: usize = 0;
    while i < t.len()
        invariant
            i <= t@.len(),
            forall|j: int| 0 <= j < i ==> (#[trigger] t@[j]).password_id == j + 1,
        decreases t@.len() - i,
    {
        if t[i].password_id as i128 != i as i128 + 1 {
            assert(t@[i as int].password_id != i + 1);
            return false;
        }
        i += 1;
    }
    true
}

fn api_keys_numbered(t: &Vec<ApiKey>) -> (r: bool)
    ensures
        r ==> forall|i: int| 0 <= i < t@.len() ==> (#[trigger] t@[i]).api_key_id == i + 1,
        !r ==> exists|i: int| 0 <= i < t@.len() && (#[trigger] t@[i]).api_key_id != i + 1,
{
    let mut i: usize = 0;
    while i < t.len()
        invariant
            i <= t@.len(),
            forall|j: int| 0 <= j < i ==> (#[trigger] t@[j]).api_key_id == j + 1,
        decreases t@.len() - i,
    {
        if t[i].api_key_id as i128 != i as i128 + 1 {
            assert(t@[i as int].api_key_id != i + 1);
            return false;
        }
        i += 1;
    }
    true
}

fn challenges_distinct(t: &Vec<VerificationChallenge>) -> (r: bool)
    ensures
        r ==> forall|i: int, j: int|
            0 <= i < j < t@.len() ==> (#[trigger] t@[i]).verification_challenge_key_hash@ != (#[trigger] t@[j]).verification_challenge_key_hash@,
        !r ==> exists|i: int, j: int|
            0 <= i < j < t@.len() && (#[trigger] t@[i]).verification_challenge_key_hash@ == (#[trigger] t@[j]).verification_challenge_key_hash@,
{
    let mut j: usize = 0;
    while j < t.len()
        invariant
            j <= t@.len(),
            forall|a: int, b: int|
                0 <= a < b < j ==> (#[trigger] t@[a]).verification_challenge_key_hash@ != (
                #[trigger] t@[b]).verification_challenge_key_hash@,
        decreases t@.len() - j,
    {
        let mut i: usize = 0;
        while i < j
            invariant
                i <= j < t@.len(),
                forall|a: int|
                    0 <= a < i ==> (#[trigger] t@[a]).verification_challenge_key_hash@
                        != t@[j as int].verification_challenge_key_hash@,
                forall|a: int, b: int|
                    0 <= a < b < j ==> (#[trigger] t@[a]).verification_challenge_key_hash@ != (
                    #[trigger] t@[b]).verification_challenge_key_hash@,
            decreases j - i,
        {
            if str_eq(
                t[i].verification_challenge_key_hash.as_str(),
                t[j].verification_challenge_key_hash.as_str(),
            ) {
                assert(t@[i as int].verification_challenge_key_hash@ == t@[j as int].verification_challenge_key_hash@);
                return false;
            }
            i += 1;
        }
        j += 1;
    }
    true
}

fn password_resets_distinct(t: &Vec<PasswordReset>) -> (r: bool)
    ensures
        r ==> forall|i: int, j: int|
            0 <= i < j < t@.len() ==> (#[trigger] t@[i]).password_reset_key_hash@ != (#[trigger] t@[j]).password_reset_key_hash@,
        !r ==> exists|i: int, j: int|
            0 <= i < j < t@.len() && (#[trigger] t@[i]).password_reset_key_hash@ == (#[trigger] t@[j]).password_reset_key_hash@,
{
    let mut j: usize = 0;
    while j < t.len()
        invariant
            j <= t@.len(),
            forall|a: int, b: int|
                0 <= a < b < j ==> (#[trigger] t@[a]).password_reset_key_hash@ != (
                #[trigger] t@[b]).password_reset_key_hash@,
        decreases t@.len() - j,
    {
        let mut i: usize = 0;
        while i < j
            invariant
                i <= j < t@.len(),
                forall|a: int|
                    0 <= a < i ==> (#[trigger] t@[a]).password_reset_key_hash@
                        != t@[j as int].password_reset_key_hash@,
                forall|a: int, b: int|
                    0 <= a < b < j ==> (#[trigger] t@[a]).password_reset_key_hash@ != (
                    #[trigger] t@[b]).password_reset_key_hash@,
            decreases j - i,
        {
            if str_eq(
                t[i].password_reset_key_hash.as_str(),
                t[j].password_reset_key_hash.as_str(),
            ) {
                assert(t@[i as int].password_reset_key_hash@ == t@[j as int].password_reset_key_hash@);
                return false;
            }
            i += 1;
        }
        j += 1;
    }
    true
}

/// The identity store.
pub struct Store {
    users: Vec<User>,
    user_data: Vec<UserData>,
    verification_challenges: Vec<VerificationChallenge>,
    emails: Vec<Email>,
    parent_permissions: Vec<ParentPermission>,
    password_resets: Vec<PasswordReset>,
    passwords: Vec<Password>,
    api_keys: Vec<ApiKey>,
}

impl View for Store {
    type V = Tables;

    closed spec fn view(&self) -> Tables {
        Tables {
            users: self.users@,
            user_data: self.user_data@,
            verification_challenges: self.verification_challenges@,
            emails: self.emails@,
            parent_permissions: self.parent_permissions@,
            password_resets: self.password_resets@,
            passwords: self.passwords@,
            api_keys: self.api_keys@,
        }
    }
}

impl Store {
    /// Whether the tables of this store are well formed.
    pub open spec fn wf(&self) -> bool {
        self@.wf()
    }

    /// A store that holds no row.
    pub fn new() -> (store: Store)
        ensures
            store@ == Tables::empty(),
            store.wf(),
    {
        Store {
            users: Vec::new(),
            user_data: Vec::new(),
            verification_challenges: Vec::new(),
            emails: Vec::new(),
            parent_permissions: Vec::new(),
            password_resets: Vec::new(),
            passwords: Vec::new(),
            api_keys: Vec::new(),
        }
    }

    /// A store that holds the given tables, where they are well formed.
    pub fn from_tables(
        users: Vec<User>,
        user_data: Vec<UserData>,
        verification_challenges: Vec<VerificationChallenge>,
        emails: Vec<Email>,
        parent_permissions: Vec<ParentPermission>,
        password_resets: Vec<PasswordReset>,
        passwords: Vec<Password>,
        api_keys: Vec<ApiKey>,
    ) -> (r: Option<Store>)
        ensures
            ({
                let tables = Tables {
                    users: users@,
                    user_data: user_data@,
                    verification_challenges: verification_challenges@,
                    emails: emails@,
                    parent_permissions: parent_permissions@,
                    password_resets: password_resets@,
                    passwords: passwords@,
                    api_keys: api_keys@,
                };
                match r {
                    Some(store) => tables.wf() && store@ == tables,
                    None => !tables.wf(),
                }
            }),
    {
        let ghost tables = Tables {
            users: users@,
            user_data: user_data@,
            verification_challenges: verification_challenges@,
            emails: emails@,
            parent_permissions: parent_permissions@,
            password_resets: password_resets@,
            passwords: passwords@,
            api_keys: api_keys@,
        };
        if !users_numbered(&users) {
            proof {
                let i = choose|i: int|
                    0 <= i < users@.len() && (#[trigger] users@[i]).user_id != i + 1;
                assert(tables.users[i].user_id != i + 1);
            }
            return None;
        }
        if !user_data_numbered(&user_data) {
            proof {
                let i = choose|i: int|
                    0 <= i < user_data@.len() && (#[trigger] user_data@[i]).user_data_id != i + 1;
                assert(tables.user_data[i].user_data_id != i + 1);
            }
            return None;
        }
        if !emails_numbered(&emails) {
            proof {
                let i = choose|i: int|
                    0 <= i < emails@.len() && (#[trigger] emails@[i]).email_id != i + 1;
                assert(tables.emails[i].email_id != i + 1);
            }
            return None;
        }
        if !parent_permissions_numbered(&parent_permissions) {
            proof {
                let i = choose|i: int|
                    0 <= i < parent_permissions@.len() && (#[trigger] parent_permissions@[i]).parent_permission_id != i + 1;
                assert(tables.parent_permissions[i].parent_permission_id != i + 1);
            }
            return None;
        }
        if !passwords_numbered(&passwords) {
            proof {
                let i = choose|i: int|
                    0 <= i < passwords@.len() && (#[trigger] passwords@[i]).password_id != i + 1;
                assert(tables.passwords[i].password_id != i + 1);
            }
            return None;
        }
        if !api_keys_numbered(&api_keys) {
            proof {
                let i = choose|i: int|
                    0 <= i < api_keys@.len() && (#[trigger] api_keys@[i]).api_key_id != i + 1;
                assert(tables.api_keys[i].api_key_id != i + 1);
            }
            return None;
        }
        if !challenges_distinct(&verification_challenges) {
            proof {
                let (i, j) = choose|i: int, j: int|
                    0 <= i < j < verification_challenges@.len() && (#[trigger] verification_challenges@[i]).verification_challenge_key_hash@ == (
                    #[trigger] verification_challenges@[j]).verification_challenge_key_hash@;
                assert(tables.verification_challenges[i].verification_challenge_key_hash@ == tables.verification_challenges[j].verification_challenge_key_hash@);
            }
            return None;
        }
        if !password_resets_distinct(&password_resets) {
            proof {
                let (i, j) = choose|i: int, j: int|
                    0 <= i < j < password_resets@.len() && (#[trigger] password_resets@[i]).password_reset_key_hash@ == (
                    #[trigger] password_resets@[j]).password_reset_key_hash@;
                assert(tables.password_resets[i].password_reset_key_hash@ == tables.password_resets[j].password_reset_key_hash@);
            }
            return None;
        }
        Some(
            Store {
                users,
                user_data,
                verification_challenges,
                emails,
                parent_permissions,
                password_resets,
                passwords,
                api_keys,
            },
        )
    }

    /// How many rows each table holds.
    pub fn size(&self) -> (size: Size)
        ensures
            size == self@.size(),
            self@.fits(),
    {
        Size {
            users: self.users.len(),
            user_data: self.user_data.len(),
            verification_challenges: self.verification_challenges.len(),
            emails: self.emails.len(),
            parent_permissions: self.parent_permissions.len(),
            password_resets: self.password_resets.len(),
            passwords: self.passwords.len(),
            api_keys: self.api_keys.len(),
        }
    }

    /// Cuts the store back to the sizes `size`: drops the rows that were
    /// stored after the store had these sizes.
    pub fn cut_to(&mut self, size: &Size)
        requires
            old(self).wf(),
        ensures
            final(self).wf(),
            final(self)@ == old(self)@.cut_to(*size),
    {
        self.users.truncate(size.users);
        self.user_data.truncate(size.user_data);
        self.verification_challenges.truncate(size.verification_challenges);
        self.emails.truncate(size.emails);
        self.parent_permissions.truncate(size.parent_permissions);
        self.password_resets.truncate(size.password_resets);
        self.passwords.truncate(size.passwords);
        self.api_keys.truncate(size.api_keys);
    }

    /// The table of users.
    pub fn users(&self) -> (t: &Vec<User>)
        ensures
            t@ == self@.users,
    {
        &self.users
    }

    /// The table of user data rows.
    pub fn user_data(&self) -> (t: &Vec<UserData>)
        ensures
            t@ == self@.user_data,
    {
        &self.user_data
    }

    /// The table of verification challenges.
    pub fn verification_challenges(&self) -> (t: &Vec<VerificationChallenge>)
        ensures
            t@ == self@.verification_challenges,
    {
        &self.verification_challenges
    }

    /// The table of email rows.
    pub fn emails(&self) -> (t: &Vec<Email>)
        ensures
            t@ == self@.emails,
    {
        &self.emails
    }

    /// The table of parent permissions.
    pub fn parent_permissions(&self) -> (t: &Vec<ParentPermission>)
        ensures
            t@ == self@.parent_permissions,
    {
        &self.parent_permissions
    }

    /// The table of password resets.
    pub fn password_resets(&self) -> (t: &Vec<PasswordReset>)
        ensures
            t@ == self@.password_resets,
    {
        &self.password_resets
    }

    /// The table of passwords.
    pub fn passwords(&self) -> (t: &Vec<Password>)
        ensures
            t@ == self@.passwords,
    {
        &self.passwords
    }

    /// The table of API key rows.
    pub fn api_keys(&self) -> (t: &Vec<ApiKey>)
        ensures
            t@ == self@.api_keys,
    {
        &self.api_keys
    }

    /// Appends a user as it is; the caller keeps the tables well formed.
    pub(crate) fn push_user(&mut self, row: User)
        ensures
            final(self)@ == (Tables { users: old(self)@.users.push(row), ..old(self)@ }),
    {
        self.users.push(row);
    }

    /// Appends a user data row as it is; the caller keeps the tables well formed.
    pub(crate) fn push_user_data(&mut self, row: UserData)
        ensures
            final(self)@ == (Tables { user_data: old(self)@.user_data.push(row), ..old(self)@ }),
    {
        self.user_data.push(row);
    }

    /// Appends a verification challenge as it is; the caller keeps the tables well formed.
    pub(crate) fn push_verification_challenge(&mut self, row: VerificationChallenge)
        ensures
            final(self)@ == (Tables {
                verification_challenges: old(self)@.verification_challenges.push(row),
                ..old(self)@
            }),
    {
        self.verification_challenges.push(row);
    }

    /// Appends a email row as it is; the caller keeps the tables well formed.
    pub(crate) fn push_email(&mut self, row: Email)
        ensures
            final(self)@ == (Tables { emails: old(self)@.emails.push(row), ..old(self)@ }),
    {
        self.emails.push(row);
    }

    /// Appends a parent permission as it is; the caller keeps the tables well formed.
    pub(crate) fn push_parent_permission(&mut self, row: ParentPermission)
        ensures
            final(self)@ == (Tables {
                parent_permissions: old(self)@.parent_permissions.push(row),
                ..old(self)@
            }),
    {
        self.parent_permissions.push(row);
    }

    /// Appends a password reset as it is; the caller keeps the tables well formed.
    pub(crate) fn push_password_reset(&mut self, row: PasswordReset)
        ensures
            final(self)@ == (Tables {
                password_resets: old(self)@.password_resets.push(row),
                ..old(self)@
            }),
    {
        self.password_resets.push(row);
    }

    /// Appends a password as it is; the caller keeps the tables well formed.
    pub(crate) fn push_password(&mut self, row: Password)
        ensures
            final(self)@ == (Tables { passwords: old(self)@.passwords.push(row), ..old(self)@ }),
    {
        self.passwords.push(row);
    }

    /// Appends a API key row as it is; the caller keeps the tables well formed.
    pub(crate) fn push_api_key(&mut self, row: ApiKey)
        ensures
            final(self)@ == (Tables { api_keys: old(self)@.api_keys.push(row), ..old(self)@ }),
    {
        self.api_keys.push(row);
    }
}

} // verus!
