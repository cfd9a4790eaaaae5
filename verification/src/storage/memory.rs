//! The store held in memory: the reference backend, and the one that tests
//! and single-process deployments use.

use vstd::prelude::*;
use vstd::string::*;
use crate::clock::{utc_now, Timestamp};
use crate::ident::{is_random_id, random_uuid};
use crate::storage::{
    answers, authorized, has_id, has_public_key, key_views, lemma_position_unique,
    register_outcome, revoke_outcome, stored_record, well_formed, HostPair, KeyPair, KeyPairView,
    StorageBackend, StoreError,
};

verus! {

/// Identities and host addresses in two lists, oldest first.
#[derive(Debug)]
pub struct MemoryStore {
    keys: Vec<KeyPair>,
    hosts: Vec<HostPair>,
}

/// The addresses of a list of host records, in order.
pub open spec fn host_views(list: Seq<HostPair>) -> Seq<Seq<char>> {
    list.map_values(|host: HostPair| host.ip@)
}

/// The instants of a list of host records, in order.
pub open spec fn host_times(list: Seq<HostPair>) -> Seq<Timestamp> {
    list.map_values(|host: HostPair| host.created_at)
}

impl MemoryStore {
    /// The live identities, in listing order.
    pub closed spec fn model(&self) -> Seq<KeyPairView> {
        key_views(self.keys@)
    }

    /// The host addresses on record, oldest first.
    pub closed spec fn host_model(&self) -> Seq<Seq<char>> {
        host_views(self.hosts@)
    }

    /// When each host address was put on record, in the same order.
    pub closed spec fn host_time_model(&self) -> Seq<Timestamp> {
        host_times(self.hosts@)
    }

    /// No identifier and no public key is on record twice.
    pub open spec fn wf(&self) -> bool {
        well_formed(self.model())
    }

    /// A store with nothing on record.
    pub fn new() -> (store: Self)
        ensures
            store.wf(),
            store.model() == Seq::<KeyPairView>::empty(),
            store.host_model() == Seq::<Seq<char>>::empty(),
            store.host_time_model() == Seq::<Timestamp>::empty(),
    {
        let store = MemoryStore { keys: Vec::new(), hosts: Vec::new() };
        assert(store.model() =~= Seq::<KeyPairView>::empty());
        assert(store.host_model() =~= Seq::<Seq<char>>::empty());
        assert(store.host_time_model() =~= Seq::<Timestamp>::empty());
        store
    }

    /// How many identities are live.
    pub fn len(&self) -> (count: usize)
        ensures
            count == self.model().len(),
    {
        self.keys.len()
    }

    fn find_id(&self, id: u128) -> (found: Option<usize>)
        ensures
            match found {
                Some(i) => i < self.model().len() && self.model()[i as int].id == id,
                None => !has_id(self.model(), id),
            },
    {
        let mut i: usize = 0;
        while i < self.keys.len()
            invariant
                i <= self.keys.len(),
                forall|j: int| 0 <= j < i ==> (#[trigger] self.model()[j]).id != id,
            decreases self.keys.len() - i,
        {
            if self.keys[i].id == id {
                return Some(i);
            }
            i += 1;
        }
        None
    }

    fn find_public_key(&self, public_key: &String) -> (found: Option<usize>)
        ensures
            match found {
                Some(i) => i < self.model().len() && self.model()[i as int].public_key
                    == public_key@,
                None => !has_public_key(self.model(), public_key@),
            },
    {
        let mut i: usize = 0;
        while i < self.keys.len()
            invariant
                i <= self.keys.len(),
                forall|j: int| 0 <= j < i ==> (#[trigger] self.model()[j]).public_key != public_key@,
            decreases self.keys.len() - i,
        {
            if self.keys[i].public_key == *public_key {
                return Some(i);
            }
            i += 1;
        }
        None
    }

    /// Enrolls the candidate under the given identifier and instant. A public
    /// key already on record is a conflict; an identifier already on record
    /// is a failure of the backend. Either leaves the store as it was.
    pub fn register_with(&mut self, keypair: KeyPair, id: u128, now: Timestamp) -> (outcome:
        Result<KeyPair, StoreError>)
        requires
            old(self).wf(),
        ensures
            final(self).wf(),
            final(self).host_model() == old(self).host_model(),
            final(self).host_time_model() == old(self).host_time_model(),
            match outcome {
                Ok(stored) => {
                    &&& stored@ == stored_record(keypair@, id, now)
                    &&& register_outcome(old(self).model(), keypair@, id, now) == Ok::<
                        Seq<KeyPairView>,
                        StoreError,
                    >(final(self).model())
                },
                Err(error) => {
                    &&& register_outcome(old(self).model(), keypair@, id, now) == Err::<
                        Seq<KeyPairView>,
                        StoreError,
                    >(error)
                    &&& final(self).model() == old(self).model()
                },
            },
    {
        if self.find_public_key(&keypair.public_key).is_some() {
            return Err(StoreError::Conflict);
        }
        if self.find_id(id).is_some() {
            return Err(StoreError::Backend);
        }
        let record = KeyPair {
            id,
            public_key: keypair.public_key,
            private_key: keypair.private_key,
            created_at: now,
            expires_at: keypair.expires_at,
        };
        let stored = record.clone();
        proof {
            crate::storage::law_registered_is_listed(self.model(), keypair@, id, now);
            assert(key_views(self.keys@.push(record)) =~= key_views(self.keys@).push(record@));
        }
        self.keys.push(record);
        Ok(stored)
    }

    /// Removes the identity with the identifier. Where there is none the
    /// store stays as it was.
    pub fn revoke(&mut self, id: u128) -> (outcome: Result<(), StoreError>)
        requires
            old(self).wf(),
        ensures
            final(self).wf(),
            final(self).host_model() == old(self).host_model(),
            final(self).host_time_model() == old(self).host_time_model(),
            match outcome {
                Ok(()) => revoke_outcome(old(self).model(), id) == Ok::<
                    Seq<KeyPairView>,
                    StoreError,
                >(final(self).model()),
                Err(error) => {
                    &&& error == StoreError::NotFound
                    &&& !has_id(old(self).model(), id)
                    &&& final(self).model() == old(self).model()
                },
            },
    {
        match self.find_id(id) {
            Some(i) => {
                proof {
                    lemma_position_unique(self.model(), id, i as int);
                    crate::storage::law_revoked_is_unauthorized(
                        self.model(),
                        id,
                        Timestamp { secs: 0, nanos: 0 },
                    );
                    assert(key_views(self.keys@.remove(i as int)) =~= key_views(
                        self.keys@,
                    ).remove(i as int));
                }
                let _gone = self.keys.remove(i);
                Ok(())
            },
            None => Err(StoreError::NotFound),
        }
    }

    /// All live identities, oldest first.
    pub fn list(&self) -> (list: Vec<KeyPair>)
        ensures
            key_views(list@) == self.model(),
    {
        let mut list: Vec<KeyPair> = Vec::new();
        let mut i: usize = 0;
        while i < self.keys.len()
            invariant
                i <= self.keys.len(),
                list@ == self.keys@.subrange(0, i as int),
            decreases self.keys.len() - i,
        {
            list.push(self.keys[i].clone());
            proof {
                assert(list@ =~= self.keys@.subrange(0, i + 1));
            }
            i += 1;
        }
        proof {
            assert(list@ =~= self.keys@);
        }
        list
    }

    /// Whether a live identity answers to the text at `now`.
    pub fn is_authorized_at(&self, text: &str, now: Timestamp) -> (yes: bool)
        ensures
            yes == authorized(self.model(), text@, now),
    {
        let mut i: usize = 0;
        while i < self.keys.len()
            invariant
                i <= self.keys.len(),
                forall|j: int| 0 <= j < i ==> !answers(#[trigger] self.model()[j], text@, now),
            decreases self.keys.len() - i,
        {
            if self.keys[i].answers_to(text, now) {
                assert(answers(self.model()[i as int], text@, now));
                return true;
            }
            i += 1;
        }
        false
    }

    /// The identity that answers to the text at `now`, if one does: the
    /// decision on a peer together with the record it rests on. In a
    /// well-formed store no second identity has the same public key.
    pub fn authorized_peer(&self, text: &str, now: Timestamp) -> (peer: Option<KeyPair>)
        ensures
            peer is Some <==> authorized(self.model(), text@, now),
            peer matches Some(keypair) ==> self.model().contains(keypair@) && answers(
                keypair@,
                text@,
                now,
            ),
    {
        let mut i: usize = 0;
        while i < self.keys.len()
            invariant
                i <= self.keys.len(),
                forall|j: int| 0 <= j < i ==> !answers(#[trigger] self.model()[j], text@, now),
            decreases self.keys.len() - i,
        {
            if self.keys[i].answers_to(text, now) {
                assert(answers(self.model()[i as int], text@, now));
                return Some(self.keys[i].clone());
            }
            i += 1;
        }
        None
    }

    /// Puts a host address on record, as let in at `now`.
    pub fn store_host(&mut self, ip_address: String, now: Timestamp)
        ensures
            final(self).model() == old(self).model(),
            final(self).host_model() == old(self).host_model().push(ip_address@),
            final(self).host_time_model() == old(self).host_time_model().push(now),
    {
        let host = HostPair { ip: ip_address, created_at: now };
        proof {
            assert(host_views(self.hosts@.push(host)) =~= host_views(self.hosts@).push(host.ip@));
            assert(host_times(self.hosts@.push(host)) =~= host_times(self.hosts@).push(now));
        }
        self.hosts.push(host);
    }

    /// Whether the host address is on record.
    pub fn validate_host_ip(&self, ip_address: &str) -> (yes: bool)
        ensures
            yes == self.host_model().contains(ip_address@),
    {
        let wanted = String::from_str(ip_address);
        let mut i: usize = 0;
        while i < self.hosts.len()
            invariant
                i <= self.hosts.len(),
                wanted@ == ip_address@,
                forall|j: int| 0 <= j < i ==> (#[trigger] self.host_model()[j]) != ip_address@,
            decreases self.hosts.len() - i,
        {
            if self.hosts[i].ip == wanted {
                assert(self.host_model()[i as int] == ip_address@);
                return true;
            }
            i += 1;
        }
        false
    }

    /// The host records, oldest first: each address with the instant it
    /// was put on record.
    pub fn list_hosts(&self) -> (list: Vec<HostPair>)
        ensures
            host_views(list@) == self.host_model(),
            host_times(list@) == self.host_time_model(),
    {
        let mut list: Vec<HostPair> = Vec::new();
        let mut i: usize = 0;
        while i < self.hosts.len()
            invariant
                i <= self.hosts.len(),
                list@.len() == i,
                forall|j: int|
                    0 <= j < i ==> (#[trigger] list@[j]).ip@ == self.hosts@[j].ip@ && list@[j].created_at
                        == self.hosts@[j].created_at,
            decreases self.hosts.len() - i,
        {
            let host = HostPair {
                ip: self.hosts[i].ip.clone(),
                created_at: self.hosts[i].created_at,
            };
            list.push(host);
            i += 1;
        }
        proof {
            assert(host_views(list@) =~= host_views(self.hosts@));
            assert(host_times(list@) =~= host_times(self.hosts@));
        }
        list
    }
}

impl StorageBackend for MemoryStore {
    open spec fn keys(&self) -> Seq<KeyPairView> {
        self.model()
    }

    open spec fn hosts(&self) -> Seq<Seq<char>> {
        self.host_model()
    }

    open spec fn inv(&self) -> bool {
        self.wf()
    }

    proof fn inv_is_well_formed(&self) {
    }

    /// Draws the identifier and reads the clock, then enrolls. Fails with
    /// `Conflict` exactly when the public key is on record already, and with
    /// `Backend` only when the identifier drawn was taken: some record holds
    /// a random identifier already. So a new public key is enrolled without
    /// fail in a store that holds no random identifier, the empty store
    /// among them.
    fn register_key(&mut self, keypair: KeyPair) -> (outcome: Result<KeyPair, StoreError>)
        ensures
            outcome matches Err(StoreError::Conflict) <==> has_public_key(
                old(self).model(),
                keypair@.public_key,
            ),
            outcome matches Err(StoreError::Backend) ==> exists|taken: u128|
                is_random_id(taken) && #[trigger] has_id(old(self).model(), taken),
            outcome matches Ok(stored) ==> is_random_id(stored.id),
    {
        let id = random_uuid();
        let at = utc_now();
        self.register_with(keypair, id, at)
    }

    fn revoke_key(&mut self, id: u128) -> (outcome: Result<(), StoreError>)
        ensures
            outcome is Ok <==> has_id(old(self).model(), id),
            outcome matches Err(error) ==> error == StoreError::NotFound,
    {
        self.revoke(id)
    }

    fn list_keys(&self) -> (outcome: Result<Vec<KeyPair>, StoreError>)
        ensures
            outcome is Ok,
    {
        Ok(self.list())
    }

    fn validate_public_key(&self, public_key: &str) -> (outcome: Result<bool, StoreError>)
        ensures
            outcome is Ok,
    {
        let at = utc_now();
        let yes = self.is_authorized_at(public_key, at);
        assert(at.spec_reading() && yes == authorized(self.keys(), public_key@, at));
        Ok(yes)
    }

    fn store_client_ip(&mut self, ip_address: String) -> (outcome: Result<(), StoreError>)
        ensures
            outcome is Ok,
    {
        let at = utc_now();
        self.store_host(ip_address, at);
        Ok(())
    }
}

} // verus!
