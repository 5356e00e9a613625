//! The account list (display name and username, kept in order) with each
//! account's password in the encrypted credential store. Reading and
//! writing the list's JSON file is the caller's work; passwords reach the
//! disk through `save_credentials`.

use vstd::prelude::*;
use vstd::utf8::*;
use crate::credential_store::{
    credential_message, CredentialError, CredentialStore, lemma_password_key_injective,
    lemma_password_key_not_list_key, list_key, password_key, stored_password,
};
use crate::text::{push_str, str_equals, string_from_chars};

verus! {

/// An account's display metadata; its password lives in the credential store.
#[derive(Debug, Clone, Default)]
pub struct AccountInfo {
    /// The name shown in the viewer.
    pub display_name: String,
    /// The game login.
    pub username: String,
}

impl PartialEq for AccountInfo {
    fn eq(&self, other: &Self) -> (r: bool) {
        str_equals(self.display_name.as_str(), other.display_name.as_str()) && str_equals(
            self.username.as_str(),
            other.username.as_str(),
        )
    }
}

impl vstd::std_specs::cmp::PartialEqSpecImpl for AccountInfo {
    open spec fn obeys_eq_spec() -> bool {
        true
    }

    open spec fn eq_spec(&self, other: &Self) -> bool {
        self.display_name@ == other.display_name@ && self.username@ == other.username@
    }
}

/// What an account shows: its display name and username.
pub open spec fn info_view(a: AccountInfo) -> (Seq<char>, Seq<char>) {
    (a.display_name@, a.username@)
}

pub open spec fn infos_view(s: Seq<AccountInfo>) -> Seq<(Seq<char>, Seq<char>)> {
    s.map_values(|a: AccountInfo| info_view(a))
}

pub open spec fn usernames(s: Seq<AccountInfo>) -> Seq<Seq<char>> {
    s.map_values(|a: AccountInfo| a.username@)
}

/// The accounts of `s` whose username is not `u`, in order.
pub open spec fn without_user(s: Seq<AccountInfo>, u: Seq<char>) -> Seq<AccountInfo>
    decreases s.len(),
{
    if s.len() == 0 {
        s
    } else if s[0].username@ == u {
        without_user(s.drop_first(), u)
    } else {
        seq![s[0]] + without_user(s.drop_first(), u)
    }
}

/// Errors of the account manager.
#[derive(Debug)]
pub enum AccountManagerError {
    /// The credential store failed.
    Credential(CredentialError),
    /// Reading or writing the account list file failed.
    Io(String),
    /// The account list file is not valid JSON.
    Json(String),
    /// An account with this username already exists.
    AccountExists(String),
    /// No account has this username.
    AccountNotFound(String),
    /// `init_credentials` has not succeeded yet.
    CredentialsNotInitialized,
}

/// The message of an account-manager error, as it is shown to the user.
pub open spec fn manager_message(e: AccountManagerError) -> Seq<char> {
    match e {
        AccountManagerError::Credential(c) => "credential error: "@ + credential_message(c),
        AccountManagerError::Io(m) => "config I/O error: "@ + m@,
        AccountManagerError::Json(m) => "config JSON error: "@ + m@,
        AccountManagerError::AccountExists(m) => "account '"@ + m@ + "' already exists"@,
        AccountManagerError::AccountNotFound(m) => "account '"@ + m@ + "' not found"@,
        AccountManagerError::CredentialsNotInitialized => "credential store not initialized — call init_credentials() first"@,
    }
}

impl AccountManagerError {
    /// The error's message, as it is shown to the user.
    pub fn message(&self) -> (s: String)
        ensures
            s@ == manager_message(*self),
    {
        let mut v: Vec<char> = Vec::new();
        match self {
            AccountManagerError::Credential(e) => {
                push_str(&mut v, "credential error: ");
                let inner = e.message();
                push_str(&mut v, inner.as_str());
            },
            AccountManagerError::Io(m) => {
                push_str(&mut v, "config I/O error: ");
                push_str(&mut v, m.as_str());
            },
            AccountManagerError::Json(m) => {
                push_str(&mut v, "config JSON error: ");
                push_str(&mut v, m.as_str());
            },
            AccountManagerError::AccountExists(m) => {
                push_str(&mut v, "account '");
                push_str(&mut v, m.as_str());
                push_str(&mut v, "' already exists");
            },
            AccountManagerError::AccountNotFound(m) => {
                push_str(&mut v, "account '");
                push_str(&mut v, m.as_str());
                push_str(&mut v, "' not found");
            },
            AccountManagerError::CredentialsNotInitialized => {
                push_str(&mut v, "credential store not initialized — call init_credentials() first");
            },
        }
        string_from_chars(&v)
    }
}

/// The account list, with passwords in an encrypted credential store.
pub struct AccountManager {
    /// The encrypted store of the passwords.
    pub credential_store: CredentialStore,
    /// The path of the account list file.
    pub config_path: String,
    /// The accounts, in the order they were added.
    pub accounts: Vec<AccountInfo>,
}

impl AccountManager {
    /// The credential store holding the passwords.
    pub closed spec fn store(&self) -> CredentialStore {
        self.credential_store
    }

    /// The path of the account list file.
    pub closed spec fn path(&self) -> Seq<char> {
        self.config_path@
    }

    pub open spec fn wf(&self) -> bool {
        self.store().wf()
    }

    /// The password stored for `username` in this manager's credential store.
    pub open spec fn password_of(&self, username: Seq<char>) -> Option<Seq<char>> {
        stored_password(self.store().entries(), username)
    }

    /// Whether an account with `username` is in the list.
    pub open spec fn has_account(&self, username: Seq<char>) -> bool {
        usernames(self.accounts@).contains(username)
    }

    /// A manager with an empty list; `credential_store` should not be
    /// initialized yet (see `init_credentials`).
    pub fn new(credential_store: CredentialStore, config_path: &str) -> (m: Self)
        ensures
            m.store() == credential_store,
            m.path() == config_path@,
            m.accounts@.len() == 0,
    {
        AccountManager { credential_store, config_path: config_path.to_owned(), accounts: Vec::new() }
    }

    /// Opens the credential store with the master password.
    pub fn init_credentials(&mut self, password: &str) -> (r: Result<(), AccountManagerError>)
        requires
            old(self).wf(),
        ensures
            final(self).wf(),
            final(self).accounts == old(self).accounts,
            final(self).path() == old(self).path(),
            r is Ok ==> final(self).store().initialized(),
            password@.len() == 0 ==> (r matches Err(
                AccountManagerError::Credential(CredentialError::InvalidCredential(m)),
            ) && m@ == "password must not be empty"@),
            r matches Err(e) ==> (e matches AccountManagerError::Credential(c) && (
            c is InvalidCredential || c is InitFailed)),
            r matches Err(AccountManagerError::Credential(CredentialError::InvalidCredential(_)))
                ==> password@.len() == 0,
            r is Err ==> final(self).store().entries() == old(self).store().entries()
                && final(self).store().initialized() == old(self).store().initialized(),
    {
        match self.credential_store.initialize(password) {
            Ok(()) => Ok(()),
            Err(e) => Err(AccountManagerError::Credential(e)),
        }
    }

    /// Whether the credential store has been opened.
    pub fn credentials_initialized(&self) -> (b: bool)
        requires
            self.wf(),
        ensures
            b == self.store().initialized(),
    {
        self.credential_store.is_initialized()
    }

    /// Writes the credential snapshot to disk.
    pub fn save_credentials(&self) -> (r: Result<(), AccountManagerError>)
        requires
            self.wf(),
        ensures
            !self.store().initialized() ==> r matches Err(
                AccountManagerError::Credential(CredentialError::NotInitialized),
            ),
            r matches Err(e) ==> (e matches AccountManagerError::Credential(c) && (
            c is NotInitialized || c is SaveFailed)),
            r matches Err(AccountManagerError::Credential(CredentialError::NotInitialized))
                ==> !self.store().initialized(),
    {
        match self.credential_store.save() {
            Ok(()) => Ok(()),
            Err(e) => Err(AccountManagerError::Credential(e)),
        }
    }

    fn find(&self, username: &str) -> (r: Option<usize>)
        ensures
            match r {
                Some(i) => i < self.accounts@.len() && self.accounts@[i as int].username@
                    == username@ && forall|k: int|
                    0 <= k < i ==> self.accounts@[k].username@ != username@,
                None => !self.has_account(username@),
            },
            r is Some <==> self.has_account(username@),
    {
        let mut i: usize = 0;
        while i < self.accounts.len()
            invariant
                0 <= i <= self.accounts@.len(),
                forall|k: int| 0 <= k < i ==> self.accounts@[k].username@ != username@,
            decreases self.accounts@.len() - i,
        {
            if str_equals(self.accounts[i].username.as_str(), username) {
                assert(usernames(self.accounts@)[i as int] == username@);
                return Some(i);
            }
            i = i + 1;
        }
        assert forall|k: int| 0 <= k < usernames(self.accounts@).len() implies usernames(
            self.accounts@,
        )[k] != username@ by {
            assert(usernames(self.accounts@)[k] == self.accounts@[k].username@);
        }
        None
    }

    /// Adds an account: stores its password and appends it to the list.
    /// Refused before `init_credentials`, for an existing username, and for
    /// an empty username or password.
    pub fn add_account(&mut self, display_name: &str, username: &str, password: &str) -> (r: Result<
        (),
        AccountManagerError,
    >)
        requires
            old(self).wf(),
        ensures
            final(self).wf(),
            final(self).path() == old(self).path(),
            final(self).store().initialized() == old(self).store().initialized(),
            !old(self).store().initialized() ==> r matches Err(
                AccountManagerError::CredentialsNotInitialized,
            ),
            old(self).store().initialized() && old(self).has_account(username@) ==> (r matches Err(
                AccountManagerError::AccountExists(u),
            ) && u@ == username@),
            old(self).store().initialized() && !old(self).has_account(username@) && (
            username@.len() == 0 || password@.len() == 0) ==> r matches Err(
                AccountManagerError::Credential(CredentialError::InvalidCredential(_)),
            ),
            r is Err ==> final(self).accounts == old(self).accounts,
            r is Ok ==> infos_view(final(self).accounts@) == infos_view(old(self).accounts@).push(
                (display_name@, username@),
            ),
            r is Ok ==> final(self).password_of(username@) == Some(password@),
            r is Ok ==> forall|v: Seq<char>|
                v != username@ ==> #[trigger] final(self).password_of(v) == old(self).password_of(
                    v,
                ),
    {
        if !self.credentials_initialized() {
            return Err(AccountManagerError::CredentialsNotInitialized);
        }
        if self.find(username).is_some() {
            return Err(AccountManagerError::AccountExists(username.to_owned()));
        }
        let ghost before = self.credential_store.entries();
        if let Err(e) = self.credential_store.save_password(username, password) {
            return Err(AccountManagerError::Credential(e));
        }
        proof {
            lemma_password_saved(before, self.credential_store.entries(), username@, password@);
        }
        let info = AccountInfo { display_name: display_name.to_owned(), username: username.to_owned() };
        self.accounts.push(info);
        assert(infos_view(self.accounts@) =~= infos_view(old(self).accounts@).push(
            (display_name@, username@),
        ));
        Ok(())
    }

    /// Removes an account: deletes its password and drops it from the list.
    pub fn remove_account(&mut self, username: &str) -> (r: Result<(), AccountManagerError>)
        requires
            old(self).wf(),
        ensures
            final(self).wf(),
            final(self).path() == old(self).path(),
            final(self).store().initialized() == old(self).store().initialized(),
            !old(self).store().initialized() ==> r matches Err(
                AccountManagerError::CredentialsNotInitialized,
            ),
            old(self).store().initialized() && !old(self).has_account(username@) ==> (r matches Err(
                AccountManagerError::AccountNotFound(u),
            ) && u@ == username@),
            r is Err ==> final(self).accounts == old(self).accounts,
            r is Ok ==> final(self).accounts@ == without_user(old(self).accounts@, username@),
            r is Ok ==> !final(self).has_account(username@),
            r is Ok ==> final(self).password_of(username@) is None,
            r is Ok ==> forall|v: Seq<char>|
                v != username@ ==> #[trigger] final(self).password_of(v) == old(self).password_of(
                    v,
                ),
    {
        if !self.credentials_initialized() {
            return Err(AccountManagerError::CredentialsNotInitialized);
        }
        if self.find(username).is_none() {
            return Err(AccountManagerError::AccountNotFound(username.to_owned()));
        }
        let ghost before = self.credential_store.entries();
        if let Err(e) = self.credential_store.delete_password(username) {
            return Err(AccountManagerError::Credential(e));
        }
        proof {
            lemma_password_deleted(before, self.credential_store.entries(), username@);
        }
        remove_user(&mut self.accounts, username);
        proof {
            lemma_without_user_lacks(old(self).accounts@, username@);
        }
        Ok(())
    }

    /// The password stored for `username`, or `None`.
    pub fn get_password(&self, username: &str) -> (r: Result<Option<String>, AccountManagerError>)
        requires
            self.wf(),
        ensures
            !self.store().initialized() ==> r matches Err(
                AccountManagerError::CredentialsNotInitialized,
            ),
            password_read(*self, username@, r),
    {
        if !self.credentials_initialized() {
            return Err(AccountManagerError::CredentialsNotInitialized);
        }
        match self.credential_store.load_password(username) {
            Ok(v) => Ok(v),
            Err(e) => Err(AccountManagerError::Credential(e)),
        }
    }

    /// Replaces the password of an existing account.
    pub fn update_password(&mut self, username: &str, new_password: &str) -> (r: Result<
        (),
        AccountManagerError,
    >)
        requires
            old(self).wf(),
        ensures
            final(self).wf(),
            final(self).accounts == old(self).accounts,
            final(self).path() == old(self).path(),
            final(self).store().initialized() == old(self).store().initialized(),
            !old(self).store().initialized() ==> r matches Err(
                AccountManagerError::CredentialsNotInitialized,
            ),
            old(self).store().initialized() && !old(self).has_account(username@) ==> (r matches Err(
                AccountManagerError::AccountNotFound(u),
            ) && u@ == username@),
            r is Ok ==> final(self).password_of(username@) == Some(new_password@),
            r is Ok ==> forall|v: Seq<char>|
                v != username@ ==> #[trigger] final(self).password_of(v) == old(self).password_of(
                    v,
                ),
    {
        if !self.credentials_initialized() {
            return Err(AccountManagerError::CredentialsNotInitialized);
        }
        if self.find(username).is_none() {
            return Err(AccountManagerError::AccountNotFound(username.to_owned()));
        }
        let ghost before = self.credential_store.entries();
        if let Err(e) = self.credential_store.save_password(username, new_password) {
            return Err(AccountManagerError::Credential(e));
        }
        proof {
            lemma_password_saved(before, self.credential_store.entries(), username@, new_password@);
        }
        Ok(())
    }

    /// Renames the first account with `username`.
    pub fn update_display_name(&mut self, username: &str, new_display_name: &str) -> (r: Result<
        (),
        AccountManagerError,
    >)
        ensures
            final(self).store() == old(self).store(),
            final(self).path() == old(self).path(),
            !old(self).has_account(username@) ==> (r matches Err(
                AccountManagerError::AccountNotFound(u),
            ) && u@ == username@),
            old(self).has_account(username@) ==> r is Ok,
            r is Err ==> final(self).accounts == old(self).accounts,
            r is Ok ==> exists|i: int|
                0 <= i < old(self).accounts@.len() && old(self).accounts@[i].username@
                    == username@ && (forall|k: int|
                    0 <= k < i ==> old(self).accounts@[k].username@ != username@)
                    && infos_view(final(self).accounts@) == infos_view(
                    old(self).accounts@,
                ).update(i, (new_display_name@, username@)),
    {
        let i = match self.find(username) {
            Some(i) => i,
            None => {
                return Err(AccountManagerError::AccountNotFound(username.to_owned()));
            },
        };
        let mut info = self.accounts.remove(i);
        info.display_name = new_display_name.to_owned();
        self.accounts.insert(i, info);
        assert(infos_view(self.accounts@) =~= infos_view(old(self).accounts@).update(
            i as int,
            (new_display_name@, username@),
        ));
        Ok(())
    }

    /// The first account with `username`, if any.
    pub fn get_account(&self, username: &str) -> (r: Option<&AccountInfo>)
        ensures
            r is None <==> !self.has_account(username@),
            r matches Some(a) ==> exists|i: int|
                0 <= i < self.accounts@.len() && self.accounts@[i] == *a && a.username@
                    == username@ && forall|k: int|
                    0 <= k < i ==> self.accounts@[k].username@ != username@,
    {
        match self.find(username) {
            Some(i) => {
                assert(usernames(self.accounts@)[i as int] == username@);
                Some(&self.accounts[i])
            },
            None => None,
        }
    }

    /// Whether an account with `username` exists.
    pub fn account_exists(&self, username: &str) -> (b: bool)
        ensures
            b == self.has_account(username@),
    {
        match self.find(username) {
            Some(i) => {
                assert(usernames(self.accounts@)[i as int] == username@);
                true
            },
            None => false,
        }
    }

    /// All accounts, in the order they were added.
    pub fn list_accounts(&self) -> (r: &[AccountInfo])
        ensures
            r@ == self.accounts@,
    {
        self.accounts.as_slice()
    }

    /// How many accounts there are.
    pub fn account_count(&self) -> (n: usize)
        ensures
            n == self.accounts@.len(),
    {
        self.accounts.len()
    }

    /// The path of the account list file.
    pub fn config_path(&self) -> (p: &str)
        ensures
            p@ == self.path(),
    {
        self.config_path.as_str()
    }

    /// The credential store.
    pub fn credential_store(&self) -> (s: &CredentialStore)
        ensures
            *s == self.store(),
    {
        &self.credential_store
    }

    /// The credential store, for changes.
    pub fn credential_store_mut(&mut self) -> (s: &mut CredentialStore)
        ensures
            *s == old(self).store(),
            final(self).store() == *final(s),
            final(self).accounts == old(self).accounts,
            final(self).path() == old(self).path(),
    {
        &mut self.credential_store
    }
}

/// What a successful password read of `username` may return: the password
/// stored for it, or nothing when no entry exists for it.
pub open spec fn password_read(
    m: AccountManager,
    username: Seq<char>,
    r: Result<Option<String>, AccountManagerError>,
) -> bool {
    match r {
        Ok(Some(p)) => m.password_of(username) == Some(p@),
        Ok(None) => !m.store().entries().contains_key(password_key(username)),
        Err(_) => true,
    }
}

/// A read gives back what the last write wrote: when the password stored
/// for `username` is `p` (as after `add_account` or `update_password`), a
/// read of it that succeeds returns exactly `p`; when none is stored (as
/// after `remove_account`), it returns nothing.
pub proof fn lemma_read_gives_back_write(
    m: AccountManager,
    username: Seq<char>,
    r: Result<Option<String>, AccountManagerError>,
)
    requires
        password_read(m, username, r),
        r is Ok,
    ensures
        m.password_of(username) matches Some(p) ==> (r matches Ok(Some(q)) && q@ == p),
        m.password_of(username) is None ==> r matches Ok(None),
{
}

/// Saving a password makes it the one read back for that user and leaves
/// every other user's password as it was.
pub proof fn lemma_password_saved(
    before: Map<Seq<u8>, Seq<u8>>,
    after: Map<Seq<u8>, Seq<u8>>,
    u: Seq<char>,
    p: Seq<char>,
)
    requires
        after.remove(list_key()) == before.insert(password_key(u), encode_utf8(p)).remove(list_key()),
    ensures
        stored_password(after, u) == Some(p),
        forall|v: Seq<char>| v != u ==> #[trigger] stored_password(after, v) == stored_password(before, v),
{
    lemma_password_key_not_list_key(u);
    assert(after.remove(list_key()).contains_key(password_key(u)));
    assert(after[password_key(u)] == after.remove(list_key())[password_key(u)]);
    encode_utf8_valid_utf8(p);
    encode_utf8_decode_utf8(p);
    assert forall|v: Seq<char>| v != u implies #[trigger] stored_password(after, v) == stored_password(
        before,
        v,
    ) by {
        lemma_password_key_not_list_key(v);
        lemma_password_key_injective(u, v);
        let k = password_key(v);
        assert(after.contains_key(k) == after.remove(list_key()).contains_key(k));
        assert(before.contains_key(k) == before.insert(password_key(u), encode_utf8(p)).remove(list_key()).contains_key(k));
        if after.contains_key(k) {
            assert(after[k] == after.remove(list_key())[k]);
            assert(before[k] == before.insert(password_key(u), encode_utf8(p)).remove(list_key())[k]);
        }
    }
}

/// Deleting a password leaves no password for that user and every other
/// user's password as it was.
pub proof fn lemma_password_deleted(
    before: Map<Seq<u8>, Seq<u8>>,
    after: Map<Seq<u8>, Seq<u8>>,
    u: Seq<char>,
)
    requires
        after.remove(list_key()) == before.remove(password_key(u)).remove(list_key()),
    ensures
        stored_password(after, u) is None,
        forall|v: Seq<char>| v != u ==> #[trigger] stored_password(after, v) == stored_password(before, v),
{
    lemma_password_key_not_list_key(u);
    assert(!after.remove(list_key()).contains_key(password_key(u)));
    assert forall|v: Seq<char>| v != u implies #[trigger] stored_password(after, v) == stored_password(
        before,
        v,
    ) by {
        lemma_password_key_not_list_key(v);
        lemma_password_key_injective(u, v);
        let k = password_key(v);
        assert(after.contains_key(k) == after.remove(list_key()).contains_key(k));
        assert(before.contains_key(k) == before.remove(password_key(u)).remove(list_key()).contains_key(k));
        if after.contains_key(k) {
            assert(after[k] == after.remove(list_key())[k]);
            assert(before[k] == before.remove(password_key(u)).remove(list_key())[k]);
        }
    }
}

/// No account with `u` is left after dropping `u`'s accounts.
pub proof fn lemma_without_user_lacks(s: Seq<AccountInfo>, u: Seq<char>)
    ensures
        !usernames(without_user(s, u)).contains(u),
    decreases s.len(),
{
    if s.len() > 0 {
        lemma_without_user_lacks(s.drop_first(), u);
        let rest = without_user(s.drop_first(), u);
        if s[0].username@ != u {
            assert(usernames(seq![s[0]] + rest) =~= seq![s[0].username@] + usernames(rest));
            assert forall|k: int| 0 <= k < usernames(seq![s[0]] + rest).len() implies usernames(
                seq![s[0]] + rest,
            )[k] != u by {
                if k > 0 {
                    assert(usernames(seq![s[0]] + rest)[k] == usernames(rest)[k - 1]);
                }
            }
        }
    } else {
        assert(usernames(without_user(s, u)) =~= Seq::<Seq<char>>::empty());
    }
}

/// Drops every account with `username`, keeping the order of the others.
fn remove_user(accounts: &mut Vec<AccountInfo>, username: &str)
    ensures
        final(accounts)@ == without_user(old(accounts)@, username@),
{
    let ghost orig = accounts@;
    let n = accounts.len();
    let mut i: usize = n;
    assert(orig.subrange(n as int, n as int) =~= Seq::<AccountInfo>::empty());
    while i > 0
        invariant
            0 <= i <= n == orig.len(),
            accounts@ == orig.subrange(0, i as int) + without_user(
                orig.subrange(i as int, n as int),
                username@,
            ),
        decreases i,
    {
        let ghost tail = orig.subrange(i as int, n as int);
        let ghost longer = orig.subrange(i - 1, n as int);
        assert(longer.drop_first() =~= tail);
        assert(longer[0] == orig[i - 1]);
        assert(accounts@[i - 1] == orig[i - 1]);
        if str_equals(accounts[i - 1].username.as_str(), username) {
            accounts.remove(i - 1);
            assert(accounts@ =~= orig.subrange(0, i - 1) + without_user(longer, username@));
        } else {
            assert(orig.subrange(0, i as int) + without_user(tail, username@) =~= orig.subrange(
                0,
                i - 1,
            ) + (seq![orig[i - 1]] + without_user(tail, username@)));
        }
        i = i - 1;
    }
    assert(orig.subrange(0, n as int) =~= orig);
    assert(orig.subrange(0, 0) + without_user(orig, username@) =~= without_user(orig, username@));
}

} // verus!
