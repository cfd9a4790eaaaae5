//! The identity store: its records, the mathematical model of its contents,
//! and the contract every backend answers to.

use vstd::prelude::*;
use vstd::string::*;
use crate::cert::{generate_public_from_private, spec_public_from_private, CertError};
use crate::clock::{
    expired, spec_expired, spec_valid_deadline, utc_now, valid_deadline, Timestamp,
};
use crate::ident::{is_random_id, parse_id, random_uuid, uuid_value};

pub mod memory;

verus! {

/// An enrolled identity: a key pair under an identifier, with the instant it
/// was enrolled and the instant, if any, at which it stops counting.
#[derive(Debug, PartialEq, Eq)]
pub struct KeyPair {
    pub id: u128,
    pub public_key: String,
    pub private_key: String,
    pub created_at: Timestamp,
    pub expires_at: Option<Timestamp>,
}

/// What a `KeyPair` is to the contracts: its fields, the texts as sequences
/// of characters.
pub struct KeyPairView {
    pub id: u128,
    pub public_key: Seq<char>,
    pub private_key: Seq<char>,
    pub created_at: Timestamp,
    pub expires_at: Option<Timestamp>,
}

impl View for KeyPair {
    type V = KeyPairView;

    open spec fn view(&self) -> KeyPairView {
        KeyPairView {
            id: self.id,
            public_key: self.public_key@,
            private_key: self.private_key@,
            created_at: self.created_at,
            expires_at: self.expires_at,
        }
    }
}

impl Clone for KeyPair {
    fn clone(&self) -> (copy: Self)
        ensures
            copy == *self,
    {
        KeyPair {
            id: self.id,
            public_key: self.public_key.clone(),
            private_key: self.private_key.clone(),
            created_at: self.created_at,
            expires_at: self.expires_at,
        }
    }
}

impl KeyPair {
    /// Both instants of the record are on the calendar: the enrollment
    /// instant, and the deadline where there is one. Such a record can be
    /// written down with dates, and reads back as it was.
    pub open spec fn spec_valid(&self) -> bool {
        self.created_at.spec_valid() && spec_valid_deadline(self.expires_at)
    }

    #[verifier::when_used_as_spec(spec_valid)]
    pub fn valid(&self) -> (yes: bool)
        ensures
            yes == self.spec_valid(),
    {
        self.created_at.valid() && valid_deadline(self.expires_at)
    }

    /// A candidate for enrollment, made from a private key: the public key
    /// is derived from it, the identifier is newly drawn and the enrollment
    /// instant is read from the clock. Fails exactly when the private key is
    /// not the base64 text of 32 bytes.
    pub fn new(private_key: String, expires_at: Option<Timestamp>) -> (outcome: Result<
        KeyPair,
        CertError,
    >)
        ensures
            match outcome {
                Ok(keypair) => {
                    &&& spec_public_from_private(private_key@) == Ok::<Seq<char>, CertError>(
                        keypair.public_key@,
                    )
                    &&& keypair.private_key == private_key
                    &&& keypair.expires_at == expires_at
                    &&& is_random_id(keypair.id)
                    &&& keypair.created_at.spec_reading()
                    &&& spec_valid_deadline(expires_at) ==> keypair.spec_valid()
                },
                Err(error) => spec_public_from_private(private_key@) == Err::<
                    Seq<char>,
                    CertError,
                >(error),
            },
    {
        let public_key = match generate_public_from_private(private_key.as_str()) {
            Ok(public_key) => public_key,
            Err(error) => {
                return Err(error);
            },
        };
        Ok(
            KeyPair {
                id: random_uuid(),
                private_key,
                public_key,
                created_at: utc_now(),
                expires_at,
            },
        )
    }

    /// Whether this identity answers to the text at `now`: the text is its
    /// public key and its deadline has not passed.
    pub fn answers_to(&self, text: &str, now: Timestamp) -> (yes: bool)
        ensures
            yes == answers(self@, text@, now),
    {
        let wanted = String::from_str(text);
        self.public_key == wanted && !expired(self.expires_at, now)
    }

    /// A record as a table row holds it, with the identifier as text. `None`
    /// exactly when that text is no identifier. The record's instants are
    /// the ones given: it is valid exactly when they are.
    pub fn from_record(
        id: &str,
        public_key: String,
        private_key: String,
        created_at: Timestamp,
        expires_at: Option<Timestamp>,
    ) -> (record: Option<KeyPair>)
        ensures
            match record {
                Some(keypair) => {
                    &&& uuid_value(id@) == Some(keypair.id)
                    &&& keypair == (KeyPair {
                        id: keypair.id,
                        public_key,
                        private_key,
                        created_at,
                        expires_at,
                    })
                    &&& keypair.spec_valid() <==> created_at.spec_valid() && spec_valid_deadline(
                        expires_at,
                    )
                },
                None => uuid_value(id@) is None,
            },
    {
        match parse_id(id) {
            Ok(id) => Some(KeyPair { id, public_key, private_key, created_at, expires_at }),
            Err(_) => None,
        }
    }
}

/// A host address that the registration gate has let in, and when.
#[derive(Debug, PartialEq, Eq)]
pub struct HostPair {
    pub ip: String,
    pub created_at: Timestamp,
}

/// The ways a store operation fails.
#[derive(Clone, Copy, Debug, PartialEq, Eq, Structural)]
pub enum StoreError {
    /// No live identity has the identifier.
    NotFound,
    /// A live identity already has the public key.
    Conflict,
    /// The persistence layer failed.
    Backend,
}

impl StoreError {
    pub open spec fn spec_message(self) -> Seq<char> {
        match self {
            StoreError::NotFound => "identity not found"@,
            StoreError::Conflict => "public key already enrolled"@,
            StoreError::Backend => "storage backend failure"@,
        }
    }

    /// The text sent to an administrative caller.
    pub fn message(&self) -> (text: String)
        ensures
            text@ == self.spec_message(),
    {
        match self {
            StoreError::NotFound => String::from_str("identity not found"),
            StoreError::Conflict => String::from_str("public key already enrolled"),
            StoreError::Backend => String::from_str("storage backend failure"),
        }
    }
}

/// What an admission query presents: a public key, or the network address of
/// a connecting peer. Either is held against the public keys on record.
#[derive(Debug, PartialEq, Eq)]
pub enum Selector {
    PublicKey(String),
    Address(String),
}

impl Selector {
    pub open spec fn spec_text(&self) -> Seq<char> {
        match self {
            Selector::PublicKey(key) => key@,
            Selector::Address(address) => address@,
        }
    }

    /// The text that is looked up.
    pub fn text(&self) -> (text: &str)
        ensures
            text@ == self.spec_text(),
    {
        match self {
            Selector::PublicKey(key) => key.as_str(),
            Selector::Address(address) => address.as_str(),
        }
    }
}

/// The views of a list of records, in order.
pub open spec fn key_views(list: Seq<KeyPair>) -> Seq<KeyPairView> {
    list.map_values(|key: KeyPair| key@)
}

/// Some live identity has the identifier.
pub open spec fn has_id(keys: Seq<KeyPairView>, id: u128) -> bool {
    exists|i: int| 0 <= i < keys.len() && (#[trigger] keys[i]).id == id
}

/// Some live identity has the public key.
pub open spec fn has_public_key(keys: Seq<KeyPairView>, public_key: Seq<char>) -> bool {
    exists|i: int| 0 <= i < keys.len() && (#[trigger] keys[i]).public_key == public_key
}

/// The invariant of every store: no identifier and no public key is on
/// record twice.
pub open spec fn well_formed(keys: Seq<KeyPairView>) -> bool {
    &&& forall|i: int, j: int|
        0 <= i < j < keys.len() ==> (#[trigger] keys[i]).id != (#[trigger] keys[j]).id
    &&& forall|i: int, j: int|
        0 <= i < j < keys.len() ==> (#[trigger] keys[i]).public_key != (
        #[trigger] keys[j]).public_key
}

/// The record kept for a candidate: its keys and deadline, under the
/// identifier and the enrollment instant that the store assigns.
pub open spec fn stored_record(candidate: KeyPairView, id: u128, now: Timestamp) -> KeyPairView {
    KeyPairView {
        id,
        public_key: candidate.public_key,
        private_key: candidate.private_key,
        created_at: now,
        expires_at: candidate.expires_at,
    }
}

/// The store after enrolling `candidate` under `id` at `now`. A public key
/// already on record is a conflict: duplicates are turned down, never
/// overwritten. An identifier already on record is a failure of the backend.
pub open spec fn register_outcome(
    keys: Seq<KeyPairView>,
    candidate: KeyPairView,
    id: u128,
    now: Timestamp,
) -> Result<Seq<KeyPairView>, StoreError> {
    if has_public_key(keys, candidate.public_key) {
        Err(StoreError::Conflict)
    } else if has_id(keys, id) {
        Err(StoreError::Backend)
    } else {
        Ok(keys.push(stored_record(candidate, id, now)))
    }
}

/// Where the identity with the identifier stands, if there is one.
pub open spec fn position_of(keys: Seq<KeyPairView>, id: u128) -> int {
    choose|i: int| 0 <= i < keys.len() && (#[trigger] keys[i]).id == id
}

/// The store after revoking `id`: the identity is gone and the others keep
/// their order.
pub open spec fn revoke_outcome(keys: Seq<KeyPairView>, id: u128) -> Result<
    Seq<KeyPairView>,
    StoreError,
> {
    if has_id(keys, id) {
        Ok(keys.remove(position_of(keys, id)))
    } else {
        Err(StoreError::NotFound)
    }
}

/// The identity answers to the text at `now`: the text is its public key and
/// its deadline has not passed.
pub open spec fn answers(key: KeyPairView, text: Seq<char>, now: Timestamp) -> bool {
    key.public_key == text && !spec_expired(key.expires_at, now)
}

/// Some live identity answers to the text at `now`.
pub open spec fn authorized(keys: Seq<KeyPairView>, text: Seq<char>, now: Timestamp) -> bool {
    exists|i: int| 0 <= i < keys.len() && answers(#[trigger] keys[i], text, now)
}

/// Whether a public key may be enrolled, from the number of live records
/// that hold it already: any at all is a conflict.
pub fn check_vacant(holders: usize) -> (verdict: Result<(), StoreError>)
    ensures
        verdict == if holders == 0 {
            Ok::<(), StoreError>(())
        } else {
            Err::<(), StoreError>(StoreError::Conflict)
        },
{
    if holders == 0 {
        Ok(())
    } else {
        Err(StoreError::Conflict)
    }
}

/// Whether a revocation took effect, from the number of records it
/// removed: none means that no live identity had the identifier.
pub fn check_removed(removed: u64) -> (verdict: Result<(), StoreError>)
    ensures
        verdict == if removed == 0 {
            Err::<(), StoreError>(StoreError::NotFound)
        } else {
            Ok::<(), StoreError>(())
        },
{
    if removed == 0 {
        Err(StoreError::NotFound)
    } else {
        Ok(())
    }
}

/// `yes` is the answer to whether a live identity answers to the text, at
/// some instant that the clock can show.
pub open spec fn answered_now(keys: Seq<KeyPairView>, text: Seq<char>, yes: bool) -> bool {
    exists|now: Timestamp| now.spec_reading() && yes == #[trigger] authorized(keys, text, now)
}

/// In a well-formed store the identifier points at one place only.
pub proof fn lemma_position_unique(keys: Seq<KeyPairView>, id: u128, i: int)
    requires
        well_formed(keys),
        0 <= i < keys.len(),
        keys[i].id == id,
    ensures
        has_id(keys, id),
        position_of(keys, id) == i,
{
    let p = position_of(keys, id);
    assert(0 <= p < keys.len() && keys[p].id == id);
    if p < i {
        assert(keys[p].id != keys[i].id);
    } else if i < p {
        assert(keys[i].id != keys[p].id);
    }
}

/// After an identity is enrolled, the listing holds the earlier records, in
/// their order, and then exactly one record under the new identifier: the
/// candidate's keys and deadline with the assigned identifier and instant.
/// The identifier was on no earlier record.
pub proof fn law_registered_is_listed(
    keys: Seq<KeyPairView>,
    candidate: KeyPairView,
    id: u128,
    now: Timestamp,
)
    requires
        well_formed(keys),
        register_outcome(keys, candidate, id, now) is Ok,
    ensures
        ({
            let after = register_outcome(keys, candidate, id, now)->Ok_0;
            let stored = stored_record(candidate, id, now);
            &&& well_formed(after)
            &&& !has_id(keys, id)
            &&& after.len() == keys.len() + 1
            &&& after.subrange(0, keys.len() as int) == keys
            &&& after.last() == stored
            &&& stored.id == id
            &&& stored.public_key == candidate.public_key
            &&& stored.private_key == candidate.private_key
            &&& stored.expires_at == candidate.expires_at
            &&& has_id(after, id)
            &&& position_of(after, id) == keys.len()
            &&& forall|i: int| 0 <= i < after.len() && (#[trigger] after[i]).id == id ==> after[i] == stored
        }),
{
    let after = register_outcome(keys, candidate, id, now)->Ok_0;
    let stored = stored_record(candidate, id, now);
    assert(after == keys.push(stored));
    assert(after.subrange(0, keys.len() as int) =~= keys);
    assert forall|i: int, j: int| 0 <= i < j < after.len() implies (#[trigger] after[i]).id != (
    #[trigger] after[j]).id by {
        if j == keys.len() {
            assert(after[i] == keys[i]);
        } else {
            assert(after[i] == keys[i] && after[j] == keys[j]);
        }
    }
    assert forall|i: int, j: int| 0 <= i < j < after.len() implies (
    #[trigger] after[i]).public_key != (#[trigger] after[j]).public_key by {
        if j == keys.len() {
            assert(after[i] == keys[i]);
        } else {
            assert(after[i] == keys[i] && after[j] == keys[j]);
        }
    }
    assert(after[keys.len() as int] == stored);
    lemma_position_unique(after, id, keys.len() as int);
    assert forall|i: int| 0 <= i < after.len() && (#[trigger] after[i]).id == id implies after[i]
        == stored by {
        if i < keys.len() {
            assert(after[i] == keys[i]);
        }
    }
}

/// Once an identity is enrolled, its public key is authorized at every
/// instant that its deadline has not reached.
pub proof fn law_registered_is_authorized(
    keys: Seq<KeyPairView>,
    candidate: KeyPairView,
    id: u128,
    now: Timestamp,
    at: Timestamp,
)
    requires
        well_formed(keys),
        register_outcome(keys, candidate, id, now) is Ok,
    ensures
        authorized(register_outcome(keys, candidate, id, now)->Ok_0, candidate.public_key, at)
            <==> !spec_expired(candidate.expires_at, at),
{
    let after = register_outcome(keys, candidate, id, now)->Ok_0;
    let stored = stored_record(candidate, id, now);
    let last = keys.len() as int;
    assert(after[last] == stored);
    if !spec_expired(candidate.expires_at, at) {
        assert(answers(after[last], candidate.public_key, at));
    }
    if authorized(after, candidate.public_key, at) {
        let i = choose|i: int|
            0 <= i < after.len() && answers(#[trigger] after[i], candidate.public_key, at);
        if i < last {
            assert(after[i] == keys[i]);
            assert(keys[i].public_key == candidate.public_key);
        }
    }
}

/// After an identity is revoked, its public key is authorized at no instant,
/// its identifier is on no record, and revoking it again finds nothing. The
/// other records stay, in their order.
pub proof fn law_revoked_is_unauthorized(keys: Seq<KeyPairView>, id: u128, at: Timestamp)
    requires
        well_formed(keys),
        has_id(keys, id),
    ensures
        ({
            let gone = keys[position_of(keys, id)];
            let after = revoke_outcome(keys, id)->Ok_0;
            &&& revoke_outcome(keys, id) is Ok
            &&& well_formed(after)
            &&& after.len() + 1 == keys.len()
            &&& !has_id(after, id)
            &&& !has_public_key(after, gone.public_key)
            &&& !authorized(after, gone.public_key, at)
            &&& revoke_outcome(after, id) == Err::<Seq<KeyPairView>, StoreError>(
                StoreError::NotFound,
            )
        }),
{
    let p = position_of(keys, id);
    let gone = keys[p];
    let after = keys.remove(p);
    assert(revoke_outcome(keys, id) == Ok::<Seq<KeyPairView>, StoreError>(after));
    assert forall|i: int| 0 <= i < after.len() implies #[trigger] after[i] == keys[if i < p {
        i
    } else {
        i + 1
    }] by {}
    assert forall|i: int, j: int| 0 <= i < j < after.len() implies (#[trigger] after[i]).id != (
    #[trigger] after[j]).id by {
        let a = if i < p { i } else { i + 1 };
        let b = if j < p { j } else { j + 1 };
        assert(keys[a].id != keys[b].id);
    }
    assert forall|i: int, j: int| 0 <= i < j < after.len() implies (
    #[trigger] after[i]).public_key != (#[trigger] after[j]).public_key by {
        let a = if i < p { i } else { i + 1 };
        let b = if j < p { j } else { j + 1 };
        assert(keys[a].public_key != keys[b].public_key);
    }
    assert forall|i: int| 0 <= i < after.len() implies (#[trigger] after[i]).id != id && after[i].public_key
        != gone.public_key by {
        let a = if i < p { i } else { i + 1 };
        if a < p {
            assert(keys[a].id != keys[p].id);
            assert(keys[a].public_key != keys[p].public_key);
        } else {
            assert(keys[p].id != keys[a].id);
            assert(keys[p].public_key != keys[a].public_key);
        }
    }
}

/// The contract of an identity store. Each operation is atomic: it either
/// takes effect as the model says or fails and leaves the records as they
/// were. A backend may fail at any time with `StoreError::Backend`.
pub trait StorageBackend {
    /// The live identities, in listing order.
    spec fn keys(&self) -> Seq<KeyPairView>;

    /// The host addresses let in so far, oldest first.
    spec fn hosts(&self) -> Seq<Seq<char>>;

    /// The backend's own invariant, which holds between operations.
    spec fn inv(&self) -> bool;

    /// The invariant covers the model's: no identifier and no public key is
    /// on record twice.
    proof fn inv_is_well_formed(&self)
        requires
            self.inv(),
        ensures
            well_formed(self.keys()),
    ;

    /// Enrolls the candidate under an identifier and an enrollment instant
    /// that the store assigns, and returns the record kept. The candidate's
    /// own identifier and instant are not used.
    fn register_key(&mut self, keypair: KeyPair) -> (outcome: Result<KeyPair, StoreError>)
        requires
            old(self).inv(),
        ensures
            final(self).inv(),
            final(self).hosts() == old(self).hosts(),
            match outcome {
                Ok(stored) => {
                    &&& !has_public_key(old(self).keys(), keypair@.public_key)
                    &&& !has_id(old(self).keys(), stored.id)
                    &&& stored@ == stored_record(keypair@, stored.id, stored.created_at)
                    &&& stored.created_at.spec_reading()
                    &&& final(self).keys() == old(self).keys().push(stored@)
                },
                Err(error) => {
                    &&& final(self).keys() == old(self).keys()
                    &&& error != StoreError::NotFound
                    &&& error == StoreError::Conflict ==> has_public_key(
                        old(self).keys(),
                        keypair@.public_key,
                    )
                },
            },
    ;

    /// Removes the identity with the identifier, for good.
    fn revoke_key(&mut self, id: u128) -> (outcome: Result<(), StoreError>)
        requires
            old(self).inv(),
        ensures
            final(self).inv(),
            final(self).hosts() == old(self).hosts(),
            match outcome {
                Ok(()) => revoke_outcome(old(self).keys(), id) == Ok::<
                    Seq<KeyPairView>,
                    StoreError,
                >(final(self).keys()),
                Err(error) => {
                    &&& final(self).keys() == old(self).keys()
                    &&& error != StoreError::Conflict
                    &&& error == StoreError::NotFound ==> !has_id(old(self).keys(), id)
                },
            },
    ;

    /// All live identities.
    fn list_keys(&self) -> (outcome: Result<Vec<KeyPair>, StoreError>)
        requires
            self.inv(),
        ensures
            match outcome {
                Ok(list) => key_views(list@) == self.keys(),
                Err(error) => error == StoreError::Backend,
            },
    ;

    /// Whether a live identity answers to the text now. The instant is the
    /// backend's to read: the answer is right for some instant that the
    /// clock can show. So a text that is no public key on record is not
    /// answered to, nor is an identity whose deadline is the epoch or
    /// earlier.
    fn validate_public_key(&self, public_key: &str) -> (outcome: Result<bool, StoreError>)
        requires
            self.inv(),
        ensures
            match outcome {
                Ok(yes) => answered_now(self.keys(), public_key@, yes),
                Err(error) => error == StoreError::Backend,
            },
    ;

    /// Puts a host address on record.
    fn store_client_ip(&mut self, ip_address: String) -> (outcome: Result<(), StoreError>)
        requires
            old(self).inv(),
        ensures
            final(self).inv(),
            final(self).keys() == old(self).keys(),
            match outcome {
                Ok(()) => final(self).hosts() == old(self).hosts().push(ip_address@),
                Err(error) => error == StoreError::Backend && final(self).hosts() == old(
                    self,
                ).hosts(),
            },
    ;
}

/// The admission query: whether a live identity whose deadline has not passed
/// answers to the selector.
pub fn is_authorized<S: StorageBackend>(store: &S, selector: &Selector) -> (outcome: Result<
    bool,
    StoreError,
>)
    requires
        store.inv(),
    ensures
        match outcome {
            Ok(yes) => answered_now(store.keys(), selector.spec_text(), yes),
            Err(error) => error == StoreError::Backend,
        },
{
    store.validate_public_key(selector.text())
}

} // verus!
