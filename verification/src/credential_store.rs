//! Per-account passwords kept encrypted at rest in an IOTA Stronghold
//! snapshot. Passwords live in the key-value store of the `accounts` client
//! under `password:<username>`; the list of usernames lives, as a JSON array,
//! under `accounts_list`.

use vstd::prelude::*;
use vstd::string::*;
use vstd::utf8::*;
use iota_stronghold::{ClientError, KeyProvider, Store, Stronghold};
use crate::text::{push_str, string_from_chars, chars_of, str_equals};
use crate::mcp_client::json_error_text;

verus! {

#[verifier::external_type_specification]
#[verifier::external_body]
pub struct ExStronghold(Stronghold);

#[verifier::external_type_specification]
#[verifier::external_body]
pub struct ExKeyProvider(KeyProvider);

#[verifier::external_type_specification]
#[verifier::external_body]
pub struct ExStore(Store);

#[verifier::external_type_specification]
#[verifier::external_body]
pub struct ExClientError(ClientError);

/// Client name of the account credentials inside the snapshot.
pub const ACCOUNTS_CLIENT: &'static str = "accounts";

/// Store key of the JSON list of usernames.
pub const ACCOUNTS_LIST_KEY: &'static str = "accounts_list";

// --- the outside crates ----------------------------------------------------

/// The key-value entries of a Stronghold store that have not expired.
/// Every entry this library writes has no lifetime, so none of them ever
/// expires; entries with a lifetime, which only another writer of the
/// snapshot could have left, are not accounted for.
pub uninterp spec fn store_entries(store: Store) -> Map<Seq<u8>, Seq<u8>>;

/// The bytes of `serde_json::to_vec` of a list of strings.
pub uninterp spec fn json_string_list(items: Seq<Seq<char>>) -> Seq<u8>;

/// The strings of `serde_json::from_slice::<Vec<String>>`, when the bytes
/// hold such a list.
pub uninterp spec fn parsed_string_list(bytes: Seq<u8>) -> Option<Seq<Seq<char>>>;

pub open spec fn no_entries() -> Map<Seq<u8>, Seq<u8>> {
    Map::empty()
}

pub open spec fn string_views(v: Seq<String>) -> Seq<Seq<char>> {
    v.map_values(|s: String| s@)
}

/// Derives the snapshot key from the password with Blake2b-256.
/// Trusted: `KeyProvider::with_passphrase_hashed` over a zeroizing copy of the
/// password bytes; nothing is promised of the key.
#[verifier::external_body]
fn key_provider_from_password(password: &str) -> Result<KeyProvider, ClientError> {
    KeyProvider::with_passphrase_hashed(
        zeroize::Zeroizing::new(password.as_bytes().to_vec()),
        crypto::hashes::blake2b::Blake2b256::new(),
    )
}

/// A fresh Stronghold. Trusted: `Stronghold::default`.
#[verifier::external_body]
fn new_stronghold() -> Stronghold {
    Stronghold::default()
}

/// Whether a snapshot file exists at `path`. Trusted: `SnapshotPath::exists`;
/// nothing is promised, it depends on the disk.
#[verifier::external_body]
fn snapshot_file_exists(path: &str) -> bool {
    iota_stronghold::SnapshotPath::from_path(path).exists()
}

/// Loads and decrypts the snapshot at `path`. Trusted:
/// `Stronghold::load_snapshot`; nothing is promised, it reads the disk.
#[verifier::external_body]
fn load_snapshot(s: &Stronghold, key: &KeyProvider, path: &str) -> Result<(), ClientError> {
    s.load_snapshot(key, &iota_stronghold::SnapshotPath::from_path(path))
}

/// Writes all clients into the snapshot at `path`, encrypted with `key`.
/// Trusted: `Stronghold::commit_with_keyprovider`; nothing is promised, it
/// writes the disk.
#[verifier::external_body]
fn commit_snapshot(s: &Stronghold, key: &KeyProvider, path: &str) -> Result<(), ClientError> {
    s.commit_with_keyprovider(&iota_stronghold::SnapshotPath::from_path(path), key)
}

/// Creates the client `name` and returns its store, which is empty.
/// Trusted: `Stronghold::create_client` builds the client with a default
/// (empty) store; `Client::store` hands out that store.
#[verifier::external_body]
fn create_client_store(s: &Stronghold, name: &str) -> (r: Result<Store, ClientError>)
    ensures
        r is Ok ==> store_entries(r->Ok_0) == no_entries(),
{
    s.create_client(name.as_bytes()).map(|c| c.store())
}

/// How loading a client from the snapshot went.
pub enum ClientLoad {
    Loaded(Store),
    NotPresent,
    Failed(ClientError),
}

/// What reading the snapshot file gave.
pub enum SnapshotRead {
    /// There is no snapshot file.
    Absent,
    /// The file did not load (a wrong password, or an unreadable file); the
    /// text of the error.
    LoadFailed(String),
    /// The file loaded; how loading the `accounts` client went.
    Loaded(ClientLoad),
}

/// Loads the client `name` from the loaded snapshot and returns its store.
/// Trusted: `Stronghold::load_client` and `Client::store`; the variant
/// `ClientDataNotPresent` becomes `NotPresent`. Nothing is promised of the
/// entries, which come from the disk.
#[verifier::external_body]
fn load_client_store(s: &Stronghold, name: &str) -> ClientLoad {
    match s.load_client(name.as_bytes()) {
        Ok(c) => ClientLoad::Loaded(c.store()),
        Err(ClientError::ClientDataNotPresent) => ClientLoad::NotPresent,
        Err(e) => ClientLoad::Failed(e),
    }
}

/// Inserts `value` at `key`. Trusted: `Store::insert` (no lifetime, so the
/// entry never expires); it fails only when the store's lock is poisoned,
/// before changing anything. On success it returns the previous value.
/// A `Store` is a shared handle to its client's cache and `insert` takes it
/// by `&`; the wrapper takes `&mut` so that the change is seen, and the
/// library keeps no second handle through which the cache could change.
#[verifier::external_body]
fn store_insert(store: &mut Store, key: Vec<u8>, value: Vec<u8>) -> (r: Result<
    Option<Vec<u8>>,
    ClientError,
>)
    ensures
        r is Ok ==> store_entries(*final(store)) == store_entries(*old(store)).insert(key@, value@),
        r matches Ok(prev) ==> (prev is Some <==> store_entries(*old(store)).contains_key(key@)),
        r matches Ok(Some(p)) ==> p@ == store_entries(*old(store))[key@],
        r is Err ==> store_entries(*final(store)) == store_entries(*old(store)),
{
    store.insert(key, value, None)
}

/// The value at `key`. Trusted: `Store::get`; it fails only when the
/// store's lock is poisoned.
#[verifier::external_body]
fn store_get(store: &Store, key: &[u8]) -> (r: Result<Option<Vec<u8>>, ClientError>)
    ensures
        r matches Ok(v) ==> (v is Some <==> store_entries(*store).contains_key(key@)),
        r matches Ok(Some(v)) ==> v@ == store_entries(*store)[key@],
{
    store.get(key)
}

/// Removes the entry at `key`. Trusted: `Store::delete`; it fails only when
/// the store's lock is poisoned, before changing anything.
#[verifier::external_body]
fn store_delete(store: &mut Store, key: &[u8]) -> (r: Result<Option<Vec<u8>>, ClientError>)
    ensures
        r is Ok ==> store_entries(*final(store)) == store_entries(*old(store)).remove(key@),
        r is Err ==> store_entries(*final(store)) == store_entries(*old(store)),
{
    store.delete(key)
}

/// Whether there is an entry at `key`. Trusted: `Store::contains_key`; it
/// fails only when the store's lock is poisoned.
#[verifier::external_body]
fn store_contains_key(store: &Store, key: &[u8]) -> (r: Result<bool, ClientError>)
    ensures
        r matches Ok(b) ==> b == store_entries(*store).contains_key(key@),
{
    store.contains_key(key)
}

/// The text of a Stronghold error. Trusted: `ClientError`'s `Display`;
/// nothing is promised of the text.
#[verifier::external_body]
fn client_error_text(e: &ClientError) -> String {
    format!("{e}")
}

/// The JSON array of `items`. Trusted: `serde_json::to_vec`, which cannot
/// fail on a list of strings (it fails only on failing `Serialize` impls or
/// maps with non-string keys), and writes each string with the escapes
/// that `serde_json::from_slice` reads back to the same string.
#[verifier::external_body]
fn json_encode_strings(items: &Vec<String>) -> (r: Result<Vec<u8>, serde_json::Error>)
    ensures
        r is Ok,
        r is Ok ==> r->Ok_0@ == json_string_list(string_views(items@)),
        r is Ok ==> parsed_string_list(r->Ok_0@) == Some(string_views(items@)),
{
    serde_json::to_vec(items)
}

/// Reads a JSON array of strings. Trusted: `serde_json::from_slice`; the
/// result is named, not stated.
#[verifier::external_body]
fn json_decode_strings(bytes: &[u8]) -> (r: Result<Vec<String>, serde_json::Error>)
    ensures
        r is Ok <==> parsed_string_list(bytes@) is Some,
        r matches Ok(v) ==> string_views(v@) == parsed_string_list(bytes@)->0,
{
    serde_json::from_slice(bytes)
}

/// `String::from_utf8`: the text of `bytes` when they are valid UTF-8, else
/// the text of the error (which is not stated).
#[verifier::external_body]
fn string_from_utf8(bytes: Vec<u8>) -> (r: Result<String, String>)
    ensures
        r is Ok <==> valid_utf8(bytes@),
        r matches Ok(s) ==> s@ == decode_utf8(bytes@),
{
    String::from_utf8(bytes).map_err(|e| e.to_string())
}

// --- keys --------------------------------------------------------------------

/// The store key of `username`'s password: the bytes of `password:<username>`.
pub open spec fn password_key(username: Seq<char>) -> Seq<u8> {
    encode_utf8("password:"@ + username)
}

/// The store key of the username list.
pub open spec fn list_key() -> Seq<u8> {
    encode_utf8(ACCOUNTS_LIST_KEY@)
}

/// The password stored for `username`, when its bytes are valid UTF-8.
pub open spec fn stored_password(entries: Map<Seq<u8>, Seq<u8>>, username: Seq<char>) -> Option<
    Seq<char>,
> {
    if entries.contains_key(password_key(username)) && valid_utf8(entries[password_key(username)]) {
        Some(decode_utf8(entries[password_key(username)]))
    } else {
        None
    }
}

/// The username list kept in the store: empty when absent, `None` when
/// its bytes are not a JSON list of strings.
pub open spec fn listed_accounts(entries: Map<Seq<u8>, Seq<u8>>) -> Option<Seq<Seq<char>>> {
    if entries.contains_key(list_key()) {
        parsed_string_list(entries[list_key()])
    } else {
        Some(Seq::empty())
    }
}

pub proof fn lemma_encode_utf8_concat(a: Seq<char>, b: Seq<char>)
    ensures
        encode_utf8(a + b) == encode_utf8(a) + encode_utf8(b),
    decreases a.len(),
{
    if a.len() > 0 {
        assert((a + b).drop_first() =~= a.drop_first() + b);
        lemma_encode_utf8_concat(a.drop_first(), b);
        assert(encode_utf8(a + b) =~= encode_utf8(a) + encode_utf8(b));
    } else {
        assert(a + b =~= b);
    }
}

/// Different usernames have different password keys.
pub proof fn lemma_password_key_injective(u: Seq<char>, v: Seq<char>)
    ensures
        password_key(u) == password_key(v) ==> u == v,
{
    if password_key(u) == password_key(v) {
        encode_utf8_decode_utf8("password:"@ + u);
        encode_utf8_decode_utf8("password:"@ + v);
        let p = "password:"@;
        assert(p + u == p + v);
        assert(u =~= (p + u).subrange(p.len() as int, (p + u).len() as int));
        assert(v =~= (p + v).subrange(p.len() as int, (p + v).len() as int));
    }
}

/// No password key is the list key.
pub proof fn lemma_password_key_not_list_key(u: Seq<char>)
    ensures
        password_key(u) != list_key(),
{
    reveal_strlit("password:");
    reveal_strlit("accounts_list");
    let p = "password:"@;
    let l = ACCOUNTS_LIST_KEY@;
    assert(is_ascii_chars(p));
    assert(is_ascii_chars(l));
    is_ascii_chars_encode_utf8(p);
    is_ascii_chars_encode_utf8(l);
    lemma_encode_utf8_concat(p, u);
    assert(encode_utf8(p + u)[0] == encode_utf8(p)[0]);
    assert(encode_utf8(p)[0] == p[0] as u8);
    assert(encode_utf8(l)[0] == l[0] as u8);
}

/// The store key of `username`'s password.
pub fn cred_key(username: &str) -> (k: Vec<u8>)
    ensures
        k@ == password_key(username@),
{
    let prefix = "password:";
    let mut k = prefix.as_bytes_vec();
    let u = username.as_bytes();
    let mut i: usize = 0;
    let ghost start = k@;
    while i < u.len()
        invariant
            0 <= i <= u@.len(),
            k@ == start + u@.subrange(0, i as int),
        decreases u@.len() - i,
    {
        k.push(u[i]);
        assert(start + u@.subrange(0, i + 1) =~= (start + u@.subrange(0, i as int)).push(u@[i as int]));
        i = i + 1;
    }
    proof {
        assert(u@.subrange(0, u@.len() as int) =~= u@);
        lemma_encode_utf8_concat(prefix@, username@);
    }
    k
}

fn list_key_bytes() -> (k: Vec<u8>)
    ensures
        k@ == list_key(),
{
    ACCOUNTS_LIST_KEY.as_bytes_vec()
}

fn text_with(prefix: &str, detail: &String) -> (s: String)
    ensures
        s@ == prefix@ + detail@,
{
    let mut v: Vec<char> = Vec::new();
    push_str(&mut v, prefix);
    push_str(&mut v, detail.as_str());
    string_from_chars(&v)
}

/// Whether a name is not `u`.
pub open spec fn other_than(u: Seq<char>) -> spec_fn(Seq<char>) -> bool {
    |n: Seq<char>| n != u
}

/// The names of `l` other than `u`, in order.
pub open spec fn drop_name(l: Seq<Seq<char>>, u: Seq<char>) -> Seq<Seq<char>> {
    l.filter(other_than(u))
}

/// The username list names exactly the users that have a password, each
/// once.
pub open spec fn list_matches_passwords(e: Map<Seq<u8>, Seq<u8>>) -> bool {
    &&& listed_accounts(e) is Some
    &&& listed_accounts(e)->0.no_duplicates()
    &&& forall|u: Seq<char>| #[trigger] listed_accounts(e)->0.contains(u) <==> e.contains_key(password_key(u))
}

proof fn lemma_filter_no_duplicates(s: Seq<Seq<char>>, pred: spec_fn(Seq<char>) -> bool)
    requires
        s.no_duplicates(),
    ensures
        s.filter(pred).no_duplicates(),
    decreases s.len(),
{
    reveal(Seq::filter);
    if s.len() > 0 {
        let rest = s.drop_last();
        assert(rest.no_duplicates()) by {
            assert forall|i: int, j: int| 0 <= i < rest.len() && 0 <= j < rest.len() && i != j implies rest[i] != rest[j] by {
                assert(rest[i] == s[i] && rest[j] == s[j]);
            }
        }
        lemma_filter_no_duplicates(rest, pred);
        let sub = rest.filter(pred);
        if pred(s.last()) {
            assert(!sub.contains(s.last())) by {
                if sub.contains(s.last()) {
                    rest.lemma_filter_contains_rev(pred, s.last());
                    let k = choose|k: int| 0 <= k < rest.len() && rest[k] == s.last();
                    assert(s[k] == s[s.len() - 1]);
                }
            }
            let out = sub.push(s.last());
            assert forall|i: int, j: int| 0 <= i < out.len() && 0 <= j < out.len() && i != j implies out[i] != out[j] by {
                if i == out.len() - 1 {
                    assert(out[j] == sub[j]);
                    assert(sub.contains(sub[j]));
                } else if j == out.len() - 1 {
                    assert(out[i] == sub[i]);
                    assert(sub.contains(sub[i]));
                } else {
                    assert(out[i] == sub[i] && out[j] == sub[j]);
                }
            }
        }
    }
}

/// Saving a password keeps the username list naming exactly the users with
/// a password: the saved user is listed once, nobody else changes.
pub proof fn lemma_save_keeps_list_matching(
    before: Map<Seq<u8>, Seq<u8>>,
    after: Map<Seq<u8>, Seq<u8>>,
    u: Seq<char>,
    p: Seq<char>,
)
    requires
        list_matches_passwords(before),
        after.remove(list_key()) == before.insert(password_key(u), encode_utf8(p)).remove(list_key()),
        listed_accounts(after) == Some(
            if listed_accounts(before)->0.contains(u) {
                listed_accounts(before)->0
            } else {
                listed_accounts(before)->0.push(u)
            },
        ),
    ensures
        list_matches_passwords(after),
{
    let l = listed_accounts(before)->0;
    let l2 = listed_accounts(after)->0;
    if !l.contains(u) {
        assert forall|i: int, j: int| 0 <= i < l2.len() && 0 <= j < l2.len() && i != j implies l2[i] != l2[j] by {
            if i == l.len() {
                assert(l2[j] == l[j]);
            } else if j == l.len() {
                assert(l2[i] == l[i]);
            } else {
                assert(l2[i] == l[i] && l2[j] == l[j]);
            }
        }
    }
    assert forall|v: Seq<char>| #[trigger] l2.contains(v) <==> after.contains_key(password_key(v)) by {
        lemma_password_key_not_list_key(v);
        lemma_password_key_injective(u, v);
        let k = password_key(v);
        assert(after.contains_key(k) == after.remove(list_key()).contains_key(k));
        if !l.contains(u) {
            if l2.contains(v) && v != u {
                let i = choose|i: int| 0 <= i < l2.len() && l2[i] == v;
                assert(l[i] == v);
            }
            if l.contains(v) {
                let i = choose|i: int| 0 <= i < l.len() && l[i] == v;
                assert(l2[i] == v);
            }
            assert(l2[l.len() as int] == u);
        }
    }
}

/// Deleting a password keeps the username list naming exactly the users
/// with a password: the deleted user is no longer listed, nobody else changes.
pub proof fn lemma_delete_keeps_list_matching(
    before: Map<Seq<u8>, Seq<u8>>,
    after: Map<Seq<u8>, Seq<u8>>,
    u: Seq<char>,
)
    requires
        list_matches_passwords(before),
        after.remove(list_key()) == before.remove(password_key(u)).remove(list_key()),
        listed_accounts(after) == Some(drop_name(listed_accounts(before)->0, u)),
    ensures
        list_matches_passwords(after),
{
    let l = listed_accounts(before)->0;
    let pred = other_than(u);
    let l2 = listed_accounts(after)->0;
    lemma_filter_no_duplicates(l, pred);
    assert forall|v: Seq<char>| #[trigger] l2.contains(v) <==> after.contains_key(password_key(v)) by {
        lemma_password_key_not_list_key(v);
        lemma_password_key_injective(u, v);
        let k = password_key(v);
        assert(after.contains_key(k) == after.remove(list_key()).contains_key(k));
        if l2.contains(v) {
            l.lemma_filter_contains_rev(pred, v);
            let i = choose|i: int| 0 <= i < l2.len() && l2[i] == v;
            l.lemma_filter_pred(pred, i);
        }
        if l.contains(v) && v != u {
            let i = choose|i: int| 0 <= i < l.len() && l[i] == v;
            l.lemma_filter_contains(pred, i);
        }
    }
}

// --- the store -----------------------------------------------------------------

/// Errors of the credential store.
#[derive(Debug)]
pub enum CredentialError {
    /// `initialize` has not succeeded yet.
    NotInitialized,
    /// The snapshot could not be created or loaded.
    InitFailed(String),
    /// A credential could not be saved, read or deleted.
    OperationFailed(String),
    /// The snapshot could not be written.
    SaveFailed(String),
    /// No such account.
    AccountNotFound(String),
    /// An empty username or password.
    InvalidCredential(String),
}

/// The message of a credential error, as it is shown to the user.
pub open spec fn credential_message(e: CredentialError) -> Seq<char> {
    match e {
        CredentialError::NotInitialized => "credential store not initialized — call initialize() first"@,
        CredentialError::InitFailed(m) => "failed to initialize stronghold: "@ + m@,
        CredentialError::OperationFailed(m) => "credential operation failed: "@ + m@,
        CredentialError::SaveFailed(m) => "failed to save snapshot: "@ + m@,
        CredentialError::AccountNotFound(m) => "account '"@ + m@ + "' not found"@,
        CredentialError::InvalidCredential(m) => "invalid credential: "@ + m@,
    }
}

impl CredentialError {
    /// The error's message, as it is shown to the user.
    pub fn message(&self) -> (s: String)
        ensures
            s@ == credential_message(*self),
    {
        match self {
            CredentialError::NotInitialized => "credential store not initialized — call initialize() first".to_owned(),
            CredentialError::InitFailed(m) => text_with("failed to initialize stronghold: ", m),
            CredentialError::OperationFailed(m) => text_with("credential operation failed: ", m),
            CredentialError::SaveFailed(m) => text_with("failed to save snapshot: ", m),
            CredentialError::AccountNotFound(m) => {
                let mut v: Vec<char> = Vec::new();
                push_str(&mut v, "account '");
                push_str(&mut v, m.as_str());
                push_str(&mut v, "' not found");
                string_from_chars(&v)
            },
            CredentialError::InvalidCredential(m) => text_with("invalid credential: ", m),
        }
    }
}

/// Per-account passwords, encrypted at rest in a Stronghold snapshot.
pub struct CredentialStore {
    snapshot_path: String,
    stronghold: Option<Stronghold>,
    key_provider: Option<KeyProvider>,
    accounts: Option<Store>,
}

impl CredentialStore {
    /// The store has been initialized: the Stronghold, its key and the
    /// `accounts` client's store are all there.
    pub closed spec fn initialized(&self) -> bool {
        self.accounts is Some
    }

    /// The entries of the `accounts` client's store (empty before `initialize`).
    pub closed spec fn entries(&self) -> Map<Seq<u8>, Seq<u8>> {
        match self.accounts {
            Some(st) => store_entries(st),
            None => Map::empty(),
        }
    }

    /// The snapshot path this store was created with.
    pub closed spec fn path(&self) -> Seq<char> {
        self.snapshot_path@
    }

    pub closed spec fn wf(&self) -> bool {
        &&& self.accounts is Some <==> self.stronghold is Some
        &&& self.accounts is Some <==> self.key_provider is Some
    }

    /// A store for the snapshot at `snapshot_path`; nothing is read until
    /// `initialize`.
    pub fn new(snapshot_path: &str) -> (s: Self)
        ensures
            s.wf(),
            !s.initialized(),
            s.path() == snapshot_path@,
    {
        CredentialStore {
            snapshot_path: snapshot_path.to_owned(),
            stronghold: None,
            key_provider: None,
            accounts: None,
        }
    }

    /// Opens the snapshot with `password`: derives the key, loads the
    /// snapshot if the file exists (creating the `accounts` client if the
    /// snapshot has none), or starts a fresh one. An empty password is
    /// refused. Reading the disk is left to the outside calls; what is done
    /// with what they read is `open_with`.
    pub fn initialize(&mut self, password: &str) -> (r: Result<(), CredentialError>)
        requires
            old(self).wf(),
        ensures
            final(self).wf(),
            final(self).path() == old(self).path(),
            password@.len() == 0 ==> (r matches Err(CredentialError::InvalidCredential(m)) && m@
                == "password must not be empty"@),
            password@.len() == 0 ==> *final(self) == *old(self),
            r is Ok ==> final(self).initialized(),
            r matches Err(e) ==> (e is InvalidCredential || e is InitFailed) && final(self).entries()
                == old(self).entries() && final(self).initialized() == old(self).initialized(),
            r matches Err(CredentialError::InvalidCredential(_)) ==> password@.len() == 0,
    {
        if password.is_empty() {
            return Err(CredentialError::InvalidCredential("password must not be empty".to_owned()));
        }
        let key = match key_provider_from_password(password) {
            Ok(k) => k,
            Err(e) => {
                return Err(CredentialError::InitFailed(text_with("key derivation failed: ", &client_error_text(&e))));
            },
        };
        let stronghold = new_stronghold();
        let read = if snapshot_file_exists(self.snapshot_path.as_str()) {
            match load_snapshot(&stronghold, &key, self.snapshot_path.as_str()) {
                Err(e) => SnapshotRead::LoadFailed(client_error_text(&e)),
                Ok(()) => SnapshotRead::Loaded(load_client_store(&stronghold, ACCOUNTS_CLIENT)),
            }
        } else {
            SnapshotRead::Absent
        };
        self.open_with(stronghold, key, read)
    }

    /// Installs the `accounts` store from what reading the snapshot gave:
    /// no file, or a loaded snapshot without the client, gets a fresh,
    /// empty client; a loaded client is kept as it is; a snapshot that did
    /// not load (a wrong password, or an unreadable file) and a client that
    /// did not load leave the store as it was and fail.
    pub fn open_with(&mut self, stronghold: Stronghold, key: KeyProvider, read: SnapshotRead) -> (r:
        Result<(), CredentialError>)
        requires
            old(self).wf(),
        ensures
            final(self).wf(),
            final(self).path() == old(self).path(),
            r is Ok ==> final(self).initialized(),
            r is Err ==> final(self).entries() == old(self).entries() && final(self).initialized()
                == old(self).initialized(),
            r matches Err(e) ==> e is InitFailed,
            read matches SnapshotRead::LoadFailed(m) ==> (r matches Err(
                CredentialError::InitFailed(t),
            ) && t@ == "failed to load snapshot (wrong password?): "@ + m@),
            read matches SnapshotRead::Loaded(ClientLoad::Loaded(st)) ==> (r is Ok
                && final(self).entries() == store_entries(st)),
            read matches SnapshotRead::Loaded(ClientLoad::Failed(_)) ==> (r matches Err(
                CredentialError::InitFailed(t),
            ) && "load_client failed: "@.is_prefix_of(t@)),
            (read is Absent || read matches SnapshotRead::Loaded(ClientLoad::NotPresent)) ==> (
            r is Ok ==> final(self).entries() == no_entries()),
            (read is Absent || read matches SnapshotRead::Loaded(ClientLoad::NotPresent)) ==> (
            r matches Err(CredentialError::InitFailed(t)) ==> "create_client failed: "@.is_prefix_of(
                t@,
            )),
    {
        let store = match read {
            SnapshotRead::LoadFailed(m) => {
                return Err(CredentialError::InitFailed(text_with("failed to load snapshot (wrong password?): ", &m)));
            },
            SnapshotRead::Loaded(ClientLoad::Loaded(st)) => st,
            SnapshotRead::Loaded(ClientLoad::Failed(e)) => {
                let t = text_with("load_client failed: ", &client_error_text(&e));
                assert("load_client failed: "@.is_prefix_of(t@)) by {
                    assert(t@.subrange(0, "load_client failed: "@.len() as int) =~= "load_client failed: "@);
                }
                return Err(CredentialError::InitFailed(t));
            },
            SnapshotRead::Loaded(ClientLoad::NotPresent) | SnapshotRead::Absent => {
                match create_client_store(&stronghold, ACCOUNTS_CLIENT) {
                    Ok(st) => st,
                    Err(e) => {
                        let t = text_with("create_client failed: ", &client_error_text(&e));
                        assert("create_client failed: "@.is_prefix_of(t@)) by {
                            assert(t@.subrange(0, "create_client failed: "@.len() as int) =~= "create_client failed: "@);
                        }
                        return Err(CredentialError::InitFailed(t));
                    },
                }
            },
        };
        self.stronghold = Some(stronghold);
        self.key_provider = Some(key);
        self.accounts = Some(store);
        Ok(())
    }

    /// Whether `initialize` has succeeded.
    pub fn is_initialized(&self) -> (b: bool)
        requires
            self.wf(),
        ensures
            b == self.initialized(),
    {
        self.accounts.is_some()
    }

    /// Reads the username list from the store.
    fn list_accounts_internal(&self) -> (r: Result<Vec<String>, CredentialError>)
        ensures
            !self.initialized() ==> r matches Err(CredentialError::NotInitialized),
            r matches Ok(v) ==> self.initialized() && listed_accounts(self.entries()) == Some(
                string_views(v@),
            ),
            self.initialized() && r is Err ==> r matches Err(CredentialError::OperationFailed(_)),
            self.initialized() && listed_accounts(self.entries()) is None ==> r is Err,
    {
        let store = match &self.accounts {
            Some(st) => st,
            None => {
                return Err(CredentialError::NotInitialized);
            },
        };
        let key = list_key_bytes();
        match store_get(store, key.as_slice()) {
            Err(e) => Err(CredentialError::OperationFailed(text_with("load accounts list failed: ", &client_error_text(&e)))),
            Ok(None) => {
                let v: Vec<String> = Vec::new();
                assert(string_views(v@) =~= Seq::<Seq<char>>::empty());
                Ok(v)
            },
            Ok(Some(bytes)) => {
                match json_decode_strings(bytes.as_slice()) {
                    Ok(v) => Ok(v),
                    Err(e) => Err(CredentialError::OperationFailed(text_with("deserialize accounts list: ", &json_error_text(&e)))),
                }
            },
        }
    }

    /// All stored usernames, in the order they were first saved.
    pub fn list_accounts(&self) -> (r: Result<Vec<String>, CredentialError>)
        ensures
            !self.initialized() ==> r matches Err(CredentialError::NotInitialized),
            r matches Ok(v) ==> self.initialized() && listed_accounts(self.entries()) == Some(
                string_views(v@),
            ),
            self.initialized() && listed_accounts(self.entries()) is None ==> r is Err,
            r matches Err(CredentialError::NotInitialized) ==> !self.initialized(),
            self.initialized() && r is Err ==> r matches Err(CredentialError::OperationFailed(_)),
    {
        self.list_accounts_internal()
    }

    /// Saves `password` for `username`, overwriting an earlier one, and adds
    /// `username` to the username list if it is not there yet. Empty
    /// usernames and passwords are refused.
    pub fn save_password(&mut self, username: &str, password: &str) -> (r: Result<(), CredentialError>)
        requires
            old(self).wf(),
        ensures
            final(self).wf(),
            final(self).initialized() == old(self).initialized(),
            final(self).path() == old(self).path(),
            username@.len() == 0 ==> (r matches Err(CredentialError::InvalidCredential(m)) && m@
                == "username must not be empty"@),
            username@.len() > 0 && password@.len() == 0 ==> (r matches Err(
                CredentialError::InvalidCredential(m),
            ) && m@ == "password must not be empty"@),
            username@.len() > 0 && password@.len() > 0 && !old(self).initialized() ==> r matches Err(
                CredentialError::NotInitialized,
            ),
            r matches Err(CredentialError::InvalidCredential(_)) ==> username@.len() == 0
                || password@.len() == 0,
            r matches Err(CredentialError::NotInitialized) ==> !old(self).initialized(),
            r matches Err(e) ==> (e is InvalidCredential || e is NotInitialized
                || e is OperationFailed),
            r is Ok ==> final(self).entries().remove(list_key()) == old(self).entries().insert(
                password_key(username@),
                encode_utf8(password@),
            ).remove(list_key()),
            r is Ok ==> (listed_accounts(old(self).entries()) matches Some(l) && listed_accounts(
                final(self).entries(),
            ) == Some(
                if l.contains(username@) {
                    l
                } else {
                    l.push(username@)
                },
            )),
            r is Ok ==> listed_accounts(old(self).entries())->0.contains(username@) ==> final(self).entries() == old(self).entries().insert(password_key(username@), encode_utf8(password@)),
            r is Ok && list_matches_passwords(old(self).entries()) ==> list_matches_passwords(
                final(self).entries(),
            ),
            r is Err ==> final(self).entries() == old(self).entries() || final(self).entries()
                == old(self).entries().insert(password_key(username@), encode_utf8(password@)),
    {
        if username.is_empty() {
            return Err(CredentialError::InvalidCredential("username must not be empty".to_owned()));
        }
        if password.is_empty() {
            return Err(CredentialError::InvalidCredential("password must not be empty".to_owned()));
        }
        if self.accounts.is_none() {
            return Err(CredentialError::NotInitialized);
        }
        proof {
            lemma_password_key_not_list_key(username@);
        }
        let key = cred_key(username);
        let value = password.as_bytes_vec();
        let ghost before = self.entries();
        let mut store = self.accounts.take().unwrap();
        let inserted = store_insert(&mut store, key, value);
        self.accounts = Some(store);
        if let Err(e) = inserted {
            return Err(CredentialError::OperationFailed(text_with("save password failed: ", &client_error_text(&e))));
        }
        let ghost with_password = self.entries();
        assert(with_password.remove(list_key()) =~= before.insert(password_key(username@), encode_utf8(password@)).remove(list_key()));
        let mut accounts = match self.list_accounts_internal() {
            Ok(v) => v,
            Err(e) => {
                return Err(e);
            },
        };
        proof {
            assert(with_password.contains_key(list_key()) == before.contains_key(list_key()));
            if before.contains_key(list_key()) {
                assert(with_password[list_key()] == before[list_key()]);
            }
            assert(listed_accounts(with_password) == listed_accounts(before));
        }
        let ghost listed = string_views(accounts@);
        if !contains_name(&accounts, username) {
            accounts.push(username.to_owned());
            assert(string_views(accounts@) =~= listed.push(username@));
            let json = match json_encode_strings(&accounts) {
                Ok(b) => b,
                Err(e) => {
                    return Err(CredentialError::OperationFailed(text_with("serialize accounts list: ", &json_error_text(&e))));
                },
            };
            let lk = list_key_bytes();
            let mut store = self.accounts.take().unwrap();
            let listed_ok = store_insert(&mut store, lk, json);
            self.accounts = Some(store);
            if let Err(e) = listed_ok {
                return Err(CredentialError::OperationFailed(text_with("save accounts list failed: ", &client_error_text(&e))));
            }
            proof {
                assert(self.entries().remove(list_key()) =~= with_password.remove(list_key()));
                assert(self.entries().contains_key(list_key()));
            }
        }
        proof {
            if list_matches_passwords(before) {
                lemma_save_keeps_list_matching(before, self.entries(), username@, password@);
            }
        }
        Ok(())
    }

    /// The password stored for `username`, or `None` if there is none.
    pub fn load_password(&self, username: &str) -> (r: Result<Option<String>, CredentialError>)
        ensures
            !self.initialized() ==> r matches Err(CredentialError::NotInitialized),
            r matches Ok(v) ==> self.initialized() && match v {
                Some(p) => stored_password(self.entries(), username@) == Some(p@),
                None => !self.entries().contains_key(password_key(username@)),
            },
            self.initialized() && r is Err ==> r matches Err(CredentialError::OperationFailed(_)),
            self.initialized() && self.entries().contains_key(password_key(username@))
                && !valid_utf8(self.entries()[password_key(username@)]) ==> r is Err,
    {
        let store = match &self.accounts {
            Some(st) => st,
            None => {
                return Err(CredentialError::NotInitialized);
            },
        };
        let key = cred_key(username);
        match store_get(store, key.as_slice()) {
            Err(e) => Err(CredentialError::OperationFailed(text_with("load password failed: ", &client_error_text(&e)))),
            Ok(None) => Ok(None),
            Ok(Some(bytes)) => {
                match string_from_utf8(bytes) {
                    Ok(p) => Ok(Some(p)),
                    Err(e) => Err(CredentialError::OperationFailed(text_with("password decode failed: ", &e))),
                }
            },
        }
    }

    /// Deletes the password of `username` and removes it from the username list.
    pub fn delete_password(&mut self, username: &str) -> (r: Result<(), CredentialError>)
        requires
            old(self).wf(),
        ensures
            final(self).wf(),
            final(self).initialized() == old(self).initialized(),
            final(self).path() == old(self).path(),
            !old(self).initialized() ==> r matches Err(CredentialError::NotInitialized),
            old(self).initialized() && r is Err ==> r matches Err(CredentialError::OperationFailed(_)),
            r is Ok ==> final(self).entries().remove(list_key()) == old(self).entries().remove(
                password_key(username@),
            ).remove(list_key()),
            r is Ok ==> (listed_accounts(old(self).entries()) matches Some(l) && listed_accounts(
                final(self).entries(),
            ) == Some(drop_name(l, username@))),
            r is Ok && list_matches_passwords(old(self).entries()) ==> list_matches_passwords(
                final(self).entries(),
            ),
            r is Err ==> final(self).entries() == old(self).entries() || final(self).entries()
                == old(self).entries().remove(password_key(username@)),
    {
        if self.accounts.is_none() {
            return Err(CredentialError::NotInitialized);
        }
        proof {
            lemma_password_key_not_list_key(username@);
        }
        let key = cred_key(username);
        let ghost before = self.entries();
        let mut store = self.accounts.take().unwrap();
        let deleted = store_delete(&mut store, key.as_slice());
        self.accounts = Some(store);
        if let Err(e) = deleted {
            return Err(CredentialError::OperationFailed(text_with("delete password failed: ", &client_error_text(&e))));
        }
        let ghost without = self.entries();
        proof {
            assert(without.contains_key(list_key()) == before.contains_key(list_key()));
            if before.contains_key(list_key()) {
                assert(without[list_key()] == before[list_key()]);
            }
            assert(listed_accounts(without) == listed_accounts(before));
        }
        let accounts = match self.list_accounts_internal() {
            Ok(v) => v,
            Err(e) => {
                return Err(e);
            },
        };
        let kept = without_name(accounts, username);
        let json = match json_encode_strings(&kept) {
            Ok(b) => b,
            Err(e) => {
                return Err(CredentialError::OperationFailed(text_with("serialize accounts list: ", &json_error_text(&e))));
            },
        };
        let lk = list_key_bytes();
        let mut store = self.accounts.take().unwrap();
        let listed_ok = store_insert(&mut store, lk, json);
        self.accounts = Some(store);
        if let Err(e) = listed_ok {
            return Err(CredentialError::OperationFailed(text_with("save accounts list failed: ", &client_error_text(&e))));
        }
        proof {
            assert(self.entries().remove(list_key()) =~= without.remove(list_key()));
            assert(without.remove(list_key()) =~= before.remove(password_key(username@)).remove(list_key()));
            assert(self.entries().contains_key(list_key()));
            assert(self.entries()[list_key()] == json@);
            assert(listed_accounts(self.entries()) == Some(string_views(kept@)));
            assert(listed_accounts(self.entries()) == Some(drop_name(listed_accounts(before)->0, username@)));
            if list_matches_passwords(before) {
                lemma_delete_keeps_list_matching(before, self.entries(), username@);
            }
        }
        Ok(())
    }

    /// Whether a password is stored for `username`.
    pub fn account_exists(&self, username: &str) -> (r: Result<bool, CredentialError>)
        ensures
            !self.initialized() ==> r matches Err(CredentialError::NotInitialized),
            r matches Ok(b) ==> self.initialized() && b == self.entries().contains_key(
                password_key(username@),
            ),
    {
        let store = match &self.accounts {
            Some(st) => st,
            None => {
                return Err(CredentialError::NotInitialized);
            },
        };
        let key = cred_key(username);
        match store_contains_key(store, key.as_slice()) {
            Ok(b) => Ok(b),
            Err(e) => Err(CredentialError::OperationFailed(text_with("account_exists check failed: ", &client_error_text(&e)))),
        }
    }

    /// Writes the snapshot to disk; changes survive a restart only after this.
    pub fn save(&self) -> (r: Result<(), CredentialError>)
        requires
            self.wf(),
        ensures
            !self.initialized() ==> r matches Err(CredentialError::NotInitialized),
            r matches Err(e) ==> e is NotInitialized || e is SaveFailed,
            r matches Err(CredentialError::NotInitialized) ==> !self.initialized(),
    {
        let stronghold = match &self.stronghold {
            Some(s) => s,
            None => {
                return Err(CredentialError::NotInitialized);
            },
        };
        let key = match &self.key_provider {
            Some(k) => k,
            None => {
                return Err(CredentialError::NotInitialized);
            },
        };
        match commit_snapshot(stronghold, key, self.snapshot_path.as_str()) {
            Ok(()) => Ok(()),
            Err(e) => Err(CredentialError::SaveFailed(text_with("commit failed: ", &client_error_text(&e)))),
        }
    }

    /// Whether a snapshot file exists at the configured path (it depends on
    /// the disk; nothing is promised).
    pub fn snapshot_exists(&self) -> bool {
        snapshot_file_exists(self.snapshot_path.as_str())
    }

    /// The snapshot path.
    pub fn snapshot_path(&self) -> (p: &str)
        ensures
            p@ == self.path(),
    {
        self.snapshot_path.as_str()
    }
}

/// Whether `names` holds `name`.
fn contains_name(names: &Vec<String>, name: &str) -> (r: bool)
    ensures
        r == string_views(names@).contains(name@),
{
    let mut i: usize = 0;
    while i < names.len()
        invariant
            0 <= i <= names@.len(),
            forall|k: int| 0 <= k < i ==> names@[k]@ != name@,
        decreases names@.len() - i,
    {
        if str_equals(names[i].as_str(), name) {
            assert(string_views(names@)[i as int] == name@);
            return true;
        }
        i = i + 1;
    }
    assert forall|k: int| 0 <= k < string_views(names@).len() implies string_views(names@)[k] != name@ by {
        assert(string_views(names@)[k] == names@[k]@);
    }
    false
}

/// `names` without the entries equal to `name`, in order.
fn without_name(names: Vec<String>, name: &str) -> (r: Vec<String>)
    ensures
        string_views(r@) == drop_name(string_views(names@), name@),
{
    let ghost f = other_than(name@);
    let mut out: Vec<String> = Vec::new();
    let mut i: usize = 0;
    while i < names.len()
        invariant
            0 <= i <= names@.len(),
            f == other_than(name@),
            string_views(out@) == string_views(names@.subrange(0, i as int)).filter(f),
        decreases names@.len() - i,
    {
        let ghost pre = names@.subrange(0, i as int);
        let ghost next = names@.subrange(0, i + 1);
        assert(string_views(next) =~= string_views(pre).push(names@[i as int]@));
        let ghost sv = string_views(pre);
        assert(string_views(pre).push(names@[i as int]@).drop_last() =~= sv);
        let keep = !str_equals(names[i].as_str(), name);
        if keep {
            let s = chars_of(names[i].as_str());
            out.push(string_from_chars(&s));
            assert(string_views(out@) =~= sv.filter(f).push(names@[i as int]@));
        }
        proof {
            reveal(Seq::filter);
            assert(string_views(next).filter(f) == (if f(names@[i as int]@) {
                sv.filter(f).push(names@[i as int]@)
            } else {
                sv.filter(f)
            }));
        }
        i = i + 1;
    }
    assert(names@.subrange(0, names@.len() as int) =~= names@);
    out
}

} // verus!
