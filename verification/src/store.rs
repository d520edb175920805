//! Credential token store: one secret per application namespace, kept under a
//! fixed account key in the operating system's credential manager.
//!
//! The store's contract is stated over a mathematical map from namespace to
//! secret. `StoreModel` is an executable reference model proved to satisfy
//! that contract (the store laws below); the `token_get` / `token_set` /
//! `token_delete` operations are the OS-backed store, which reaches the
//! credential manager through the trusted `keyring` wrappers and classifies
//! every backend outcome in verified code, so that absence of an entry is a
//! success, never an error.

use vstd::prelude::*;

verus! {

/// The credential backend was inaccessible or rejected an operation. Not the
/// same as "no entry", which `token_get` and `token_delete` treat as success.
#[derive(Debug, Clone, PartialEq, Eq)]
pub struct StoreFailure {
    /// The backend's own description of the failure.
    pub message: String,
}

/// What one read of the credential store produced.
#[derive(Debug, Clone, PartialEq, Eq)]
pub enum LookupOutcome {
    /// A secret is stored for the entry.
    Found(String),
    /// No secret is stored for the entry; a valid state, not a failure.
    Absent,
    /// The backend could not be read, with its message.
    Failure(String),
}

/// What one removal from the credential store produced.
#[derive(Debug, Clone, PartialEq, Eq)]
pub enum RemoveOutcome {
    /// A stored secret was removed.
    Removed,
    /// There was nothing to remove; a valid state, not a failure.
    Absent,
    /// The backend could not be written, with its message.
    Failure(String),
}

/// The fixed account key: the single secret slot within a namespace.
pub fn token_account() -> (r: &'static str)
    ensures
        r@ == "plex_token"@,
{
    "plex_token"
}

/// What a store holding `store` answers for `namespace`: the stored secret,
/// or absence.
pub open spec fn lookup(store: Map<Seq<char>, Seq<char>>, namespace: Seq<char>) -> Option<
    Seq<char>,
> {
    if store.contains_key(namespace) {
        Some(store[namespace])
    } else {
        None
    }
}

/// The map a journal of (namespace, secret) writes denotes: each write
/// overwrites any earlier secret for its namespace.
pub open spec fn entries_map(entries: Seq<(String, String)>) -> Map<Seq<char>, Seq<char>>
    decreases entries.len(),
{
    if entries.len() == 0 {
        Map::empty()
    } else {
        entries_map(entries.drop_last()).insert(entries.last().0@, entries.last().1@)
    }
}

/// Executable reference model of the credential token store: at most one
/// secret per namespace, absence distinct from failure. It is proved to
/// satisfy the store laws, which is the behaviour the OS-backed store is
/// relied upon for.
pub struct StoreModel {
    entries: Vec<(String, String)>,
}

impl View for StoreModel {
    type V = Map<Seq<char>, Seq<char>>;

    closed spec fn view(&self) -> Map<Seq<char>, Seq<char>> {
        entries_map(self.entries@)
    }
}

impl StoreModel {
    /// A store with no prior writes: it holds nothing.
    pub fn new() -> (r: StoreModel)
        ensures
            r@ == Map::<Seq<char>, Seq<char>>::empty(),
    {
        StoreModel { entries: Vec::new() }
    }

    /// Looks the namespace's secret up; `None` means no entry, a valid state.
    pub fn get(&self, namespace: &str) -> (r: Option<String>)
        ensures
            match r {
                Some(secret) => lookup(self@, namespace@) == Some(secret@),
                None => lookup(self@, namespace@) is None,
            },
    {
        let target: String = namespace.to_owned();
        let mut i: usize = self.entries.len();
        proof {
            assert(self.entries@.take(self.entries@.len() as int) =~= self.entries@);
        }
        while i > 0
            invariant
                i <= self.entries.len(),
                target@ == namespace@,
                lookup(entries_map(self.entries@), namespace@) == lookup(
                    entries_map(self.entries@.take(i as int)),
                    namespace@,
                ),
            decreases i,
        {
            i = i - 1;
            proof {
                assert(self.entries@.take(i as int + 1).drop_last() =~= self.entries@.take(
                    i as int,
                ));
                assert(self.entries@.take(i as int + 1).last() == self.entries@[i as int]);
            }
            let pair = &self.entries[i];
            if pair.0 == target {
                return Some(pair.1.clone());
            }
        }
        proof {
            assert(self.entries@.take(0) =~= Seq::<(String, String)>::empty());
        }
        None
    }

    /// Creates or overwrites the namespace's secret: no history is kept.
    pub fn set(&mut self, namespace: &str, secret: String)
        ensures
            final(self)@ == old(self)@.insert(namespace@, secret@),
    {
        let ghost prior = self.entries@;
        let owned: String = namespace.to_owned();
        self.entries.push((owned, secret));
        proof {
            assert(self.entries@.drop_last() =~= prior);
        }
    }

    /// Removes the namespace's secret if one is stored; removing an absent
    /// entry succeeds and changes nothing.
    pub fn delete(&mut self, namespace: &str)
        ensures
            final(self)@ == old(self)@.remove(namespace@),
    {
        let target: String = namespace.to_owned();
        let mut kept: Vec<(String, String)> = Vec::new();
        proof {
            assert(self.entries@.take(0) =~= Seq::<(String, String)>::empty());
            assert(entries_map(Seq::<(String, String)>::empty()).remove(namespace@)
                =~= Map::<Seq<char>, Seq<char>>::empty());
        }
        let mut i: usize = 0;
        while i < self.entries.len()
            invariant
                i <= self.entries.len(),
                target@ == namespace@,
                entries_map(kept@) == entries_map(self.entries@.take(i as int)).remove(namespace@),
            decreases self.entries.len() - i,
        {
            proof {
                assert(self.entries@.take(i as int + 1).drop_last() =~= self.entries@.take(
                    i as int,
                ));
                assert(self.entries@.take(i as int + 1).last() == self.entries@[i as int]);
            }
            let ghost kept_prior = kept@;
            let pair = &self.entries[i];
            if pair.0 == target {
                proof {
                    assert(entries_map(kept@) =~= entries_map(
                        self.entries@.take(i as int + 1),
                    ).remove(namespace@));
                }
            } else {
                kept.push((pair.0.clone(), pair.1.clone()));
                proof {
                    assert(kept@.drop_last() =~= kept_prior);
                    assert(entries_map(kept@) =~= entries_map(
                        self.entries@.take(i as int + 1),
                    ).remove(namespace@));
                }
            }
            i = i + 1;
        }
        proof {
            assert(self.entries@.take(self.entries@.len() as int) =~= self.entries@);
        }
        self.entries = kept;
    }
}

/// Law: a namespace with no prior write has no entry; looking it up is
/// absence, not an error.
pub proof fn lemma_fresh_store_absent(namespace: Seq<char>)
    ensures
        lookup(Map::<Seq<char>, Seq<char>>::empty(), namespace) is None,
{
}

/// Law: a write followed by a read of the same namespace returns exactly the
/// secret written.
pub proof fn lemma_set_then_get(
    store: Map<Seq<char>, Seq<char>>,
    namespace: Seq<char>,
    secret: Seq<char>,
)
    ensures
        lookup(store.insert(namespace, secret), namespace) == Some(secret),
{
}

/// Law: a second write to the same namespace overwrites the first; no
/// history is kept, and a read returns the latest secret.
pub proof fn lemma_set_overwrites(
    store: Map<Seq<char>, Seq<char>>,
    namespace: Seq<char>,
    secret1: Seq<char>,
    secret2: Seq<char>,
)
    ensures
        store.insert(namespace, secret1).insert(namespace, secret2) == store.insert(
            namespace,
            secret2,
        ),
        lookup(store.insert(namespace, secret1).insert(namespace, secret2), namespace) == Some(
            secret2,
        ),
{
    assert(store.insert(namespace, secret1).insert(namespace, secret2) =~= store.insert(
        namespace,
        secret2,
    ));
}

/// Law: after a removal the namespace has no entry, so a read returns
/// absence.
pub proof fn lemma_delete_then_get(store: Map<Seq<char>, Seq<char>>, namespace: Seq<char>)
    ensures
        lookup(store.remove(namespace), namespace) is None,
{
}

/// Law: removing a namespace that holds no entry succeeds and leaves the
/// store as it was.
pub proof fn lemma_delete_absent_is_noop(store: Map<Seq<char>, Seq<char>>, namespace: Seq<char>)
    requires
        lookup(store, namespace) is None,
    ensures
        store.remove(namespace) == store,
{
    assert(store.remove(namespace) =~= store);
}

#[verifier::external_type_specification]
#[verifier::external_body]
pub struct ExEntry(keyring::Entry);

/// Relies on keyring::Entry::new: builds the credential-store handle for the
/// (service, account) pair, or reports the builder's failure as its message.
#[verifier::external_body]
fn entry_new(service: &str, account: &str) -> (r: Result<keyring::Entry, String>) {
    match keyring::Entry::new(service, account) {
        Ok(entry) => Ok(entry),
        Err(e) => Err(e.to_string()),
    }
}

/// Relies on keyring::Entry::get_password: `NoEntry` means no credential is
/// stored for the entry; any other error is an access failure, reported as
/// its message.
#[verifier::external_body]
fn entry_get_password(entry: &keyring::Entry) -> (r: LookupOutcome) {
    match entry.get_password() {
        Ok(secret) => LookupOutcome::Found(secret),
        Err(keyring::Error::NoEntry) => LookupOutcome::Absent,
        Err(e) => LookupOutcome::Failure(e.to_string()),
    }
}

/// Relies on keyring::Entry::set_password: creates or overwrites the entry's
/// stored credential; any error is reported as its message.
#[verifier::external_body]
fn entry_set_password(entry: &keyring::Entry, secret: &str) -> (r: Result<(), String>) {
    match entry.set_password(secret) {
        Ok(()) => Ok(()),
        Err(e) => Err(e.to_string()),
    }
}

/// Relies on keyring::Entry::delete_credential: removes the entry's stored
/// credential; `NoEntry` means there was nothing to remove; any other error
/// is reported as its message.
#[verifier::external_body]
fn entry_delete_credential(entry: &keyring::Entry) -> (r: RemoveOutcome) {
    match entry.delete_credential() {
        Ok(()) => RemoveOutcome::Removed,
        Err(keyring::Error::NoEntry) => RemoveOutcome::Absent,
        Err(e) => RemoveOutcome::Failure(e.to_string()),
    }
}

/// Classifies what a read produced: a stored secret and absence are both
/// success, absence as `None`; only a backend failure is an error.
pub fn classify_lookup(outcome: LookupOutcome) -> (r: Result<Option<String>, StoreFailure>)
    ensures
        match outcome {
            LookupOutcome::Found(secret) => r == Ok::<Option<String>, StoreFailure>(Some(secret)),
            LookupOutcome::Absent => r == Ok::<Option<String>, StoreFailure>(None::<String>),
            LookupOutcome::Failure(message) => r == Err::<Option<String>, StoreFailure>(
                (StoreFailure { message }),
            ),
        },
{
    match outcome {
        LookupOutcome::Found(secret) => Ok(Some(secret)),
        LookupOutcome::Absent => Ok(None),
        LookupOutcome::Failure(message) => Err(StoreFailure { message }),
    }
}

/// Classifies what a write produced: only a backend failure is an error.
pub fn classify_write(outcome: Result<(), String>) -> (r: Result<(), StoreFailure>)
    ensures
        match outcome {
            Ok(()) => r == Ok::<(), StoreFailure>(()),
            Err(message) => r == Err::<(), StoreFailure>((StoreFailure { message })),
        },
{
    match outcome {
        Ok(()) => Ok(()),
        Err(message) => Err(StoreFailure { message }),
    }
}

/// Classifies what a removal produced: removing a stored secret and finding
/// nothing to remove are both success; only a backend failure is an error.
pub fn classify_removal(outcome: RemoveOutcome) -> (r: Result<(), StoreFailure>)
    ensures
        match outcome {
            RemoveOutcome::Removed => r == Ok::<(), StoreFailure>(()),
            RemoveOutcome::Absent => r == Ok::<(), StoreFailure>(()),
            RemoveOutcome::Failure(message) => r == Err::<(), StoreFailure>(
                (StoreFailure { message }),
            ),
        },
{
    match outcome {
        RemoveOutcome::Removed => Ok(()),
        RemoveOutcome::Absent => Ok(()),
        RemoveOutcome::Failure(message) => Err(StoreFailure { message }),
    }
}

/// Reads the namespace's token from the OS credential store. `Ok(None)`
/// means no token is saved, a valid state; `Err` only for a backend failure.
pub fn token_get(namespace: &str) -> (r: Result<Option<String>, StoreFailure>) {
    match entry_new(namespace, token_account()) {
        Ok(entry) => classify_lookup(entry_get_password(&entry)),
        Err(message) => Err(StoreFailure { message }),
    }
}

/// Creates or overwrites the namespace's token in the OS credential store.
pub fn token_set(namespace: &str, secret: &str) -> (r: Result<(), StoreFailure>) {
    match entry_new(namespace, token_account()) {
        Ok(entry) => classify_write(entry_set_password(&entry, secret)),
        Err(message) => Err(StoreFailure { message }),
    }
}

/// Removes the namespace's token from the OS credential store; removing an
/// absent token succeeds.
pub fn token_delete(namespace: &str) -> (r: Result<(), StoreFailure>) {
    match entry_new(namespace, token_account()) {
        Ok(entry) => classify_removal(entry_delete_credential(&entry)),
        Err(message) => Err(StoreFailure { message }),
    }
}

} // verus!
