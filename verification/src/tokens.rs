//! OAuth tokens and the stores that keep them per account, and the checks of
//! the server's user accounts.

use vstd::prelude::*;
use vstd::string::StringSliceAdditionalSpecFns;

use crate::auth::{spec_trim, trim};
use crate::text::{owned, push_str, str_eq};
use argon2::{PasswordHasher, PasswordVerifier};

verus! {

/// An OAuth access token and, if the provider issued one, its refresh token.
#[derive(Debug, Clone, PartialEq, Eq)]
pub struct OAuthToken {
    pub access_token: String,
    pub refresh_token: Option<String>,
}

impl OAuthToken {
    /// A field-by-field copy.
    pub fn copied(&self) -> (r: OAuthToken)
        ensures
            r == *self,
    {
        OAuthToken {
            access_token: self.access_token.clone(),
            refresh_token: match &self.refresh_token {
                Some(s) => Some(s.clone()),
                None => None,
            },
        }
    }
}

/// A token store failed (its message).
#[derive(Debug, Clone, PartialEq, Eq)]
pub struct TokenError(pub String);

/// The token stored under `key` in an association list (the last entry wins).
pub open spec fn spec_lookup(s: Seq<(String, OAuthToken)>, key: Seq<char>) -> Option<OAuthToken>
    decreases s.len(),
{
    if s.len() == 0 {
        None
    } else if s.last().0@ == key {
        Some(s.last().1)
    } else {
        spec_lookup(s.drop_last(), key)
    }
}

/// No account appears twice.
pub open spec fn distinct_keys(s: Seq<(String, OAuthToken)>) -> bool {
    forall|i: int, j: int| 0 <= i < j < s.len() ==> (#[trigger] s[i]).0@ != (#[trigger] s[j]).0@
}

/// In-memory token store.
pub struct MemoryTokenStore {
    entries: Vec<(String, OAuthToken)>,
}

proof fn lemma_lookup_absent(s: Seq<(String, OAuthToken)>, key: Seq<char>)
    requires
        forall|i: int| 0 <= i < s.len() ==> (#[trigger] s[i]).0@ != key,
    ensures
        spec_lookup(s, key) is None,
    decreases s.len(),
{
    if s.len() > 0 {
        lemma_lookup_absent(s.drop_last(), key);
    }
}

proof fn lemma_lookup_at(s: Seq<(String, OAuthToken)>, i: int)
    requires
        distinct_keys(s),
        0 <= i < s.len(),
    ensures
        spec_lookup(s, s[i].0@) == Some(s[i].1),
    decreases s.len(),
{
    if i < s.len() - 1 {
        assert(s.last().0@ != s[i].0@);
        assert(distinct_keys(s.drop_last()));
        lemma_lookup_at(s.drop_last(), i);
    }
}

/// Looking up a key in a list with distinct keys.
proof fn lemma_lookup_spec(s: Seq<(String, OAuthToken)>, key: Seq<char>)
    requires
        distinct_keys(s),
    ensures
        (exists|i: int| 0 <= i < s.len() && (#[trigger] s[i]).0@ == key) ==> exists|i: int|
            0 <= i < s.len() && (#[trigger] s[i]).0@ == key && spec_lookup(s, key) == Some(s[i].1),
        (forall|i: int| 0 <= i < s.len() ==> (#[trigger] s[i]).0@ != key) ==> spec_lookup(s, key) is None,
{
    if exists|i: int| 0 <= i < s.len() && (#[trigger] s[i]).0@ == key {
        let i = choose|i: int| 0 <= i < s.len() && (#[trigger] s[i]).0@ == key;
        lemma_lookup_at(s, i);
    } else {
        lemma_lookup_absent(s, key);
    }
}

impl MemoryTokenStore {
    #[verifier::type_invariant]
    spec fn inv(self) -> bool {
        distinct_keys(self.entries@)
    }

    /// The stored token of each account.
    pub closed spec fn view(&self) -> Map<Seq<char>, OAuthToken> {
        Map::new(|k: Seq<char>| spec_lookup(self.entries@, k) is Some, |k: Seq<char>| spec_lookup(self.entries@, k)->0)
    }

    pub fn new() -> (s: MemoryTokenStore)
        ensures
            s.view() == Map::<Seq<char>, OAuthToken>::empty(),
    {
        let s = MemoryTokenStore { entries: Vec::new() };
        assert(s.view() =~= Map::<Seq<char>, OAuthToken>::empty());
        s
    }

    fn position(&self, account_id: &str) -> (r: Option<usize>)
        ensures
            r matches Some(i) ==> i < self.entries@.len() && self.entries@[i as int].0@ == account_id@,
            r is None ==> forall|i: int| 0 <= i < self.entries@.len() ==> (#[trigger] self.entries@[i]).0@ != account_id@,
    {
        let mut i: usize = 0;
        while i < self.entries.len()
            invariant
                i <= self.entries@.len(),
                forall|j: int| 0 <= j < i ==> (#[trigger] self.entries@[j]).0@ != account_id@,
            decreases self.entries.len() - i,
        {
            if str_eq(self.entries[i].0.as_str(), account_id) {
                return Some(i);
            }
            i = i + 1;
        }
        None
    }

    /// Store `token` for `account_id`, replacing any earlier one.
    pub fn save(&mut self, account_id: &str, token: &OAuthToken) -> (r: Result<(), TokenError>)
        ensures
            r is Ok,
            final(self).view() == old(self).view().insert(account_id@, *token),
    {
        proof {
            use_type_invariant(&*self);
        }
        let ghost before = self.entries@;
        let t = token.copied();
        match self.position(account_id) {
            Some(i) => {
                let key = self.entries[i].0.clone();
                let mut entries: Vec<(String, OAuthToken)> = Vec::new();
                std::mem::swap(&mut entries, &mut self.entries);
                entries.set(i, (key, t));
                proof {
                    let after = entries@;
                    assert(distinct_keys(after)) by {
                        assert forall|a: int, b: int| 0 <= a < b < after.len() implies (#[trigger] after[a]).0@ != (#[trigger] after[b]).0@ by {
                            assert(after[a].0@ == before[a].0@);
                            assert(after[b].0@ == before[b].0@);
                        }
                    }
                    assert forall|k: Seq<char>| #![auto] spec_lookup(after, k) == (if k == account_id@ { Some(*token) } else { spec_lookup(before, k) }) by {
                        lemma_lookup_spec(after, k);
                        lemma_lookup_spec(before, k);
                        if k == account_id@ {
                            lemma_lookup_at(after, i as int);
                        } else {
                            if exists|j: int| 0 <= j < before.len() && (#[trigger] before[j]).0@ == k {
                                let j = choose|j: int| 0 <= j < before.len() && (#[trigger] before[j]).0@ == k;
                                lemma_lookup_at(after, j);
                                lemma_lookup_at(before, j);
                            } else {
                                assert forall|j: int| 0 <= j < after.len() implies (#[trigger] after[j]).0@ != k by {
                                    assert(after[j].0@ == before[j].0@);
                                }
                                lemma_lookup_absent(after, k);
                            }
                        }
                    }
                }
                self.entries = entries;
            },
            None => {
                let mut entries: Vec<(String, OAuthToken)> = Vec::new();
                std::mem::swap(&mut entries, &mut self.entries);
                entries.push((owned(account_id), t));
                proof {
                    let after = entries@;
                    assert(after.drop_last() =~= before);
                    assert(distinct_keys(after)) by {
                        assert forall|a: int, b: int| 0 <= a < b < after.len() implies (#[trigger] after[a]).0@ != (#[trigger] after[b]).0@ by {
                            if b == after.len() - 1 {
                                assert(after[a] == before[a]);
                            } else {
                                assert(after[a] == before[a]);
                                assert(after[b] == before[b]);
                            }
                        }
                    }
                }
                self.entries = entries;
            },
        }
        proof {
            assert(self.view() =~= old(self).view().insert(account_id@, *token));
        }
        Ok(())
    }

    /// The token stored for `account_id`, if any.
    pub fn load(&self, account_id: &str) -> (r: Result<Option<OAuthToken>, TokenError>)
        ensures
            r == Ok::<Option<OAuthToken>, TokenError>(
                if self.view().contains_key(account_id@) {
                    Some(self.view()[account_id@])
                } else {
                    None
                },
            ),
    {
        proof {
            use_type_invariant(self);
            lemma_lookup_spec(self.entries@, account_id@);
        }
        match self.position(account_id) {
            Some(i) => {
                proof {
                    lemma_lookup_at(self.entries@, i as int);
                }
                Ok(Some(self.entries[i].1.copied()))
            },
            None => Ok(None),
        }
    }

    /// Forget the token of `account_id` (a no-op when there is none).
    pub fn delete(&mut self, account_id: &str) -> (r: Result<(), TokenError>)
        ensures
            r is Ok,
            final(self).view() == old(self).view().remove(account_id@),
    {
        proof {
            use_type_invariant(&*self);
        }
        let ghost before = self.entries@;
        match self.position(account_id) {
            Some(i) => {
                let mut entries: Vec<(String, OAuthToken)> = Vec::new();
                std::mem::swap(&mut entries, &mut self.entries);
                entries.remove(i);
                proof {
                    let after = entries@;
                    assert(after =~= before.remove(i as int));
                    assert(distinct_keys(after)) by {
                        assert forall|a: int, b: int| 0 <= a < b < after.len() implies (#[trigger] after[a]).0@ != (#[trigger] after[b]).0@ by {
                            if a < i {
                                if b < i {
                                    assert(after[b] == before[b]);
                                } else {
                                    assert(after[b] == before[b + 1]);
                                }
                            } else {
                                assert(after[a] == before[a + 1]);
                                assert(after[b] == before[b + 1]);
                            }
                        }
                    }
                    assert forall|k: Seq<char>| #![auto] spec_lookup(after, k) == (if k == account_id@ { None } else { spec_lookup(before, k) }) by {
                        lemma_lookup_spec(after, k);
                        lemma_lookup_spec(before, k);
                        if k == account_id@ {
                            assert forall|j: int| 0 <= j < after.len() implies (#[trigger] after[j]).0@ != k by {
                                if j < i {
                                    assert(after[j] == before[j]);
                                } else {
                                    assert(after[j] == before[j + 1]);
                                }
                            }
                            lemma_lookup_absent(after, k);
                        } else {
                            if exists|j: int| 0 <= j < before.len() && (#[trigger] before[j]).0@ == k {
                                let j = choose|j: int| 0 <= j < before.len() && (#[trigger] before[j]).0@ == k;
                                lemma_lookup_at(before, j);
                                if j < i {
                                    assert(after[j] == before[j]);
                                    lemma_lookup_at(after, j);
                                } else {
                                    assert(j != i);
                                    assert(after[j - 1] == before[j]);
                                    lemma_lookup_at(after, j - 1);
                                }
                            } else {
                                assert forall|j: int| 0 <= j < after.len() implies (#[trigger] after[j]).0@ != k by {
                                    if j < i {
                                        assert(after[j] == before[j]);
                                    } else {
                                        assert(after[j] == before[j + 1]);
                                    }
                                }
                                lemma_lookup_absent(after, k);
                            }
                        }
                    }
                }
                self.entries = entries;
            },
            None => {
                proof {
                    lemma_lookup_absent(before, account_id@);
                }
            },
        }
        proof {
            assert(self.view() =~= old(self).view().remove(account_id@));
        }
        Ok(())
    }
}

/// A read after a write of the same account gives back what was written; a
/// write to one account leaves every other account's token as it was.
pub proof fn lemma_save_then_load(m: Map<Seq<char>, OAuthToken>, account: Seq<char>, other: Seq<char>, token: OAuthToken)
    requires
        other != account,
    ensures
        m.insert(account, token).contains_key(account),
        m.insert(account, token)[account] == token,
        m.insert(account, token).contains_key(other) == m.contains_key(other),
        m.contains_key(other) ==> m.insert(account, token)[other] == m[other],
{
}

/// After a delete the account has no token; other accounts keep theirs.
pub proof fn lemma_delete_then_load(m: Map<Seq<char>, OAuthToken>, account: Seq<char>, other: Seq<char>)
    requires
        other != account,
    ensures
        !m.remove(account).contains_key(account),
        m.remove(account).contains_key(other) == m.contains_key(other),
        m.contains_key(other) ==> m.remove(account)[other] == m[other],
{
}

/// A headless token store that returns a single configured token for any
/// account id; saving and deleting are no-ops.
#[derive(Debug, Clone, PartialEq, Eq)]
pub struct EnvTokenStore {
    pub token: Option<String>,
}

impl EnvTokenStore {
    /// Build from an explicit token (e.g. read from `GITHUB_TOKEN`).
    pub fn new(token: Option<String>) -> (s: EnvTokenStore)
        ensures
            s.token == token,
    {
        EnvTokenStore { token }
    }

    /// Build from the raw value of the `GITHUB_TOKEN` setting: an unset or
    /// empty value configures no token.
    pub fn from_env_value(raw: Option<String>) -> (s: EnvTokenStore)
        ensures
            s.token == (match raw {
                Some(v) => if v@.len() > 0 { Some(v) } else { None::<String> },
                None => None::<String>,
            }),
    {
        let token = match raw {
            Some(v) => if v.unicode_len() > 0 { Some(v) } else { None },
            None => None,
        };
        EnvTokenStore { token }
    }

    pub fn has_token(&self) -> (r: bool)
        ensures
            r == self.token is Some,
    {
        self.token.is_some()
    }

    /// The configured token, whatever the account.
    pub fn load(&self, account_id: &str) -> (r: Result<Option<OAuthToken>, TokenError>)
        ensures
            r == Ok::<Option<OAuthToken>, TokenError>(
                match self.token {
                    Some(t) => Some(OAuthToken { access_token: t, refresh_token: None }),
                    None => None,
                },
            ),
    {
        match &self.token {
            Some(t) => Ok(Some(OAuthToken { access_token: t.clone(), refresh_token: None })),
            None => Ok(None),
        }
    }

    pub fn save(&self, account_id: &str, token: &OAuthToken) -> (r: Result<(), TokenError>)
        ensures
            r is Ok,
    {
        Ok(())
    }

    pub fn delete(&self, account_id: &str) -> (r: Result<(), TokenError>)
        ensures
            r is Ok,
    {
        Ok(())
    }
}

/// Where OAuth tokens are kept, per account.
pub trait TokenStore {
    /// Store `token` for `account_id`, replacing any earlier one.
    fn save(&mut self, account_id: &str, token: &OAuthToken) -> Result<(), TokenError>;

    /// The token stored for `account_id`, if any.
    fn load(&self, account_id: &str) -> Result<Option<OAuthToken>, TokenError>;

    /// Forget the token of `account_id`.
    fn delete(&mut self, account_id: &str) -> Result<(), TokenError>;
}

impl TokenStore for MemoryTokenStore {
    fn save(&mut self, account_id: &str, token: &OAuthToken) -> (r: Result<(), TokenError>)
        ensures
            r is Ok,
            final(self).view() == old(self).view().insert(account_id@, *token),
    {
        MemoryTokenStore::save(self, account_id, token)
    }

    fn load(&self, account_id: &str) -> (r: Result<Option<OAuthToken>, TokenError>)
        ensures
            r == Ok::<Option<OAuthToken>, TokenError>(
                if self.view().contains_key(account_id@) {
                    Some(self.view()[account_id@])
                } else {
                    None
                },
            ),
    {
        MemoryTokenStore::load(self, account_id)
    }

    fn delete(&mut self, account_id: &str) -> (r: Result<(), TokenError>)
        ensures
            r is Ok,
            final(self).view() == old(self).view().remove(account_id@),
    {
        MemoryTokenStore::delete(self, account_id)
    }
}

impl TokenStore for EnvTokenStore {
    fn save(&mut self, account_id: &str, token: &OAuthToken) -> (r: Result<(), TokenError>)
        ensures
            r is Ok,
            *final(self) == *old(self),
    {
        EnvTokenStore::save(self, account_id, token)
    }

    fn load(&self, account_id: &str) -> (r: Result<Option<OAuthToken>, TokenError>)
        ensures
            r == Ok::<Option<OAuthToken>, TokenError>(
                match self.token {
                    Some(t) => Some(OAuthToken { access_token: t, refresh_token: None }),
                    None => None,
                },
            ),
    {
        EnvTokenStore::load(self, account_id)
    }

    fn delete(&mut self, account_id: &str) -> (r: Result<(), TokenError>)
        ensures
            r is Ok,
            *final(self) == *old(self),
    {
        EnvTokenStore::delete(self, account_id)
    }
}

/// What reading one account's entry of the OS keyring gave.
#[derive(Debug, PartialEq, Eq)]
pub enum KeyringRead {
    /// The entry's token, decoded from its JSON (or the decoder's message).
    Found(Result<OAuthToken, String>),
    /// The account has no entry.
    NoEntry,
    /// The keyring failed (its message).
    Failed(String),
}

/// What deleting one account's entry of the OS keyring gave.
#[derive(Debug, Clone, PartialEq, Eq)]
pub enum KeyringDelete {
    Deleted,
    /// The account had no entry.
    NoEntry,
    /// The keyring failed (its message).
    Failed(String),
}

/// The token store backed by the OS secret service: tokens are kept as JSON
/// under the service name `newt-todo`, keyed by account id. The keyring is
/// reached outside the library; these methods decide what its answers mean.
#[derive(Debug, Clone, PartialEq, Eq)]
pub struct KeyringTokenStore;

impl KeyringTokenStore {
    pub fn new() -> (s: KeyringTokenStore)
        ensures
            s == KeyringTokenStore,
    {
        KeyringTokenStore
    }

    /// The keyring service the tokens are stored under.
    pub fn service(&self) -> (r: &'static str)
        ensures
            r@ == "newt-todo"@,
    {
        "newt-todo"
    }

    /// A load's answer: a missing entry is no token, not a failure.
    pub fn load_result(&self, read: KeyringRead) -> (r: Result<Option<OAuthToken>, TokenError>)
        ensures
            r == match read {
                KeyringRead::Found(Ok(t)) => Ok::<Option<OAuthToken>, TokenError>(Some(t)),
                KeyringRead::Found(Err(m)) => Err(TokenError(m)),
                KeyringRead::NoEntry => Ok(None),
                KeyringRead::Failed(m) => Err(TokenError(m)),
            },
    {
        match read {
            KeyringRead::Found(Ok(t)) => Ok(Some(t)),
            KeyringRead::Found(Err(m)) => Err(TokenError(m)),
            KeyringRead::NoEntry => Ok(None),
            KeyringRead::Failed(m) => Err(TokenError(m)),
        }
    }

    /// A delete's answer: deleting a missing entry succeeds.
    pub fn delete_result(&self, outcome: KeyringDelete) -> (r: Result<(), TokenError>)
        ensures
            r == match outcome {
                KeyringDelete::Failed(m) => Err::<(), TokenError>(TokenError(m)),
                _ => Ok(()),
            },
    {
        match outcome {
            KeyringDelete::Failed(m) => Err(TokenError(m)),
            _ => Ok(()),
        }
    }
}

impl Default for KeyringTokenStore {
    fn default() -> (s: KeyringTokenStore)
        ensures
            s == KeyringTokenStore,
    {
        KeyringTokenStore::new()
    }
}

/// Why a registration is refused before it reaches the user table.
#[derive(Debug, Clone, PartialEq, Eq)]
pub enum RegistrationError {
    EmptyUsername,
    EmptyPassword,
    UsernameTaken,
    /// Hashing the password failed (the hasher's message).
    HashFailed(String),
}

impl RegistrationError {
    pub fn message(&self) -> (r: String)
        ensures
            r@ == match self {
                RegistrationError::EmptyUsername => "username must not be empty"@,
                RegistrationError::EmptyPassword => "password must not be empty"@,
                RegistrationError::UsernameTaken => "username already taken"@,
                RegistrationError::HashFailed(m) => "hash password: "@ + m@,
            },
    {
        match self {
            RegistrationError::EmptyUsername => owned("username must not be empty"),
            RegistrationError::EmptyPassword => owned("password must not be empty"),
            RegistrationError::UsernameTaken => owned("username already taken"),
            RegistrationError::HashFailed(m) => {
                let mut r = owned("hash password: ");
                push_str(&mut r, m.as_str());
                r
            },
        }
    }
}

/// Check a registration: the username is trimmed and must not be empty, the
/// password must not be empty. Answers the username as it will be stored.
pub fn check_registration(username: &str, password: &str) -> (r: Result<String, RegistrationError>)
    ensures
        spec_trim(username@).len() == 0 ==> r == Err::<String, RegistrationError>(RegistrationError::EmptyUsername),
        spec_trim(username@).len() > 0 && password@.len() == 0 ==> r == Err::<String, RegistrationError>(
            RegistrationError::EmptyPassword,
        ),
        spec_trim(username@).len() > 0 && password@.len() > 0 ==> (r matches Ok(u) && u@ == spec_trim(username@)),
{
    let u = trim(username);
    if u.as_str().unicode_len() == 0 {
        return Err(RegistrationError::EmptyUsername);
    }
    if password.unicode_len() == 0 {
        return Err(RegistrationError::EmptyPassword);
    }
    Ok(u)
}

/// A registration may only claim a username no user has yet.
pub fn check_username_free(taken: bool) -> (r: Result<(), RegistrationError>)
    ensures
        taken ==> r == Err::<(), RegistrationError>(RegistrationError::UsernameTaken),
        !taken ==> r is Ok,
{
    if taken {
        Err(RegistrationError::UsernameTaken)
    } else {
        Ok(())
    }
}

/// Whether `argon2` accepts `password` for the PHC hash string `stored_hash`.
pub uninterp spec fn argon2_accepts(password: Seq<char>, stored_hash: Seq<char>) -> bool;

/// Parses `stored_hash` with `argon2::PasswordHash::new` and checks `password`
/// against it with `Argon2::default().verify_password`; a hash that does not
/// parse accepts nothing. Claimed: the answer is a function of the password and
/// the hash alone (the salt is inside the hash), named [`argon2_accepts`].
#[verifier::external_body]
fn verify_password(password: &str, stored_hash: &str) -> (r: bool)
    ensures
        r == argon2_accepts(password@, stored_hash@),
{
    match argon2::PasswordHash::new(stored_hash) {
        Ok(parsed) => argon2::Argon2::default().verify_password(password.as_bytes(), &parsed).is_ok(),
        Err(_) => false,
    }
}

/// The PHC string `Argon2::default().hash_password` makes of `password` with
/// the salt `salt` (its bytes, base64-encoded into a `SaltString`).
pub uninterp spec fn argon2_phc(password: Seq<char>, salt: Seq<u8>) -> Seq<char>;

/// Encodes `salt` with `SaltString::encode_b64` and hashes `password` with
/// `Argon2::default().hash_password`. Claimed: a hash it returns is a function
/// of the password and the salt alone, named [`argon2_phc`], and
/// `verify_password` accepts the password against it (the hash carries its
/// algorithm, parameters and salt). A salt of fewer than 3 bytes encodes to
/// fewer than the 4 characters a `Salt` needs, and hashing then panics; more
/// than 48 bytes do not fit a `SaltString`: both are left out. Argon2's own
/// checks (`verify_inputs`) refuse only a salt under 8 bytes or a password over
/// `0xFFFFFFFF` bytes, and its default parameters are fixed, so with at least
/// 8 salt bytes and such a password it succeeds.
#[verifier::external_body]
fn hash_password_with_salt(password: &str, salt: &[u8]) -> (r: Result<String, String>)
    requires
        3 <= salt@.len() <= 48,
    ensures
        8 <= salt@.len() && password.spec_bytes().len() <= 0xFFFFFFFF ==> r is Ok,
        r matches Ok(h) ==> h@ == argon2_phc(password@, salt@) && argon2_accepts(password@, h@),
{
    let salt = argon2::password_hash::SaltString::encode_b64(salt).map_err(|e| e.to_string())?;
    argon2::Argon2::default().hash_password(password.as_bytes(), &salt).map(|h| h.to_string()).map_err(|e| e.to_string())
}

/// The stored hash of a new user's password, once the username is known to be
/// free: hashed with `salt`, so that a login with the same password succeeds.
pub fn new_password_hash(taken: bool, password: &str, salt: &[u8]) -> (r: Result<String, RegistrationError>)
    requires
        3 <= salt@.len() <= 48,
    ensures
        taken ==> r == Err::<String, RegistrationError>(RegistrationError::UsernameTaken),
        !taken ==> match r {
            Ok(h) => h@ == argon2_phc(password@, salt@) && argon2_accepts(password@, h@),
            Err(e) => e is HashFailed,
        },
        !taken && 8 <= salt@.len() && password.spec_bytes().len() <= 0xFFFFFFFF ==> r is Ok,
{
    if taken {
        return Err(RegistrationError::UsernameTaken);
    }
    match hash_password_with_salt(password, salt) {
        Ok(h) => Ok(h),
        Err(m) => Err(RegistrationError::HashFailed(m)),
    }
}

/// A login's answer, given the user found under the username (its id and
/// stored hash) if any: the user's id when the password matches the hash.
pub fn login_result(user: Option<(String, String)>, password: &str) -> (r: Option<String>)
    ensures
        match user {
            None => r is None,
            Some((id, hash)) => if argon2_accepts(password@, hash@) {
                r == Some(id)
            } else {
                r is None
            },
        },
{
    match user {
        None => None,
        Some((id, hash)) => {
            if verify_password(password, hash.as_str()) {
                Some(id)
            } else {
                None
            }
        },
    }
}

} // verus!
