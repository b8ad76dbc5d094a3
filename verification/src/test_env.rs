//! An environment for tests: the in-memory store, a stand-in for the PIN
//! hash, and a source of secrets that a test steers.

use crate::env::{Env, FRESH_SECRET_LENGTH};
use crate::memory_store::{blown, burnt, CrashPoint, MemoryStore};
use crate::persist::{
    batch_view, Attestation, AttestationId, Credential, Persist, PinRecord, StorageError,
    StoreModel, Update, UpdateView,
};
use crate::secret::Secret;
use vstd::prelude::*;

verus! {

/// An environment whose every part a test can set up and look into.
pub struct TestEnv {
    store: MemoryStore,
    seed: u8,
}

impl TestEnv {
    /// The byte that the next fresh secret is made of.
    pub closed spec fn seed_spec(&self) -> u8 {
        self.seed
    }

    /// The store behind the environment.
    pub closed spec fn memory(&self) -> MemoryStore {
        self.store
    }

    /// An environment with an empty store that holds up to `capacity`
    /// credentials.
    pub fn new(capacity: usize) -> (env: TestEnv)
        ensures
            env.store() == StoreModel::empty(),
            env.memory().capacity_spec() == capacity,
            !env.memory().faulty_spec(),
            env.memory().fuse_spec() is None,
            env.seed_spec() == 0,
    {
        TestEnv { store: MemoryStore::new(capacity), seed: 0 }
    }

    /// Sets the byte that fresh secrets are made of from now on.
    pub fn set_seed(&mut self, seed: u8)
        ensures
            final(self).seed_spec() == seed,
            final(self).memory() == old(self).memory(),
    {
        self.seed = seed;
    }

    /// Makes the store refuse every write from now on, or take writes again.
    pub fn set_faulty(&mut self, faulty: bool)
        ensures
            final(self).memory().faulty_spec() == faulty,
            final(self).memory().fuse_spec() == old(self).memory().fuse_spec(),
            final(self).memory().capacity_spec() == old(self).memory().capacity_spec(),
            final(self).store() == old(self).store(),
            final(self).seed_spec() == old(self).seed_spec(),
    {
        self.store.set_faulty(faulty);
    }

    /// Sets the fuse of the store: it takes `writes` more writes and refuses
    /// every write after them; see [`MemoryStore::fail_after`].
    pub fn fail_after(&mut self, writes: usize)
        ensures
            final(self).memory().faulty_spec() == (old(self).memory().faulty_spec() || writes
                == 0),
            final(self).memory().fuse_spec() == (if writes == 0 {
                None
            } else {
                Some(writes)
            }),
            final(self).memory().capacity_spec() == old(self).memory().capacity_spec(),
            final(self).store() == old(self).store(),
            final(self).seed_spec() == old(self).seed_spec(),
    {
        self.store.fail_after(writes);
    }

    /// Begins the write of a batch and cuts it short at `point`, as a loss of
    /// power would; see [`MemoryStore::commit_interrupted`].  A write that is
    /// cut short before the shadow copy is made live leaves what the store
    /// held; one that is cut short after it leaves what the whole batch makes
    /// of the store, if the store takes the batch, and what it held if not.
    /// The capacity, the fault switch and the seed stay as they were.
    pub fn commit_interrupted(&mut self, batch: &Vec<Update>, point: CrashPoint)
        ensures
            final(self).store() == old(self).store() || final(self).store() == old(
                self,
            ).store().apply_all(batch_view(batch@)),
            final(self).store() == (match point {
                CrashPoint::Staging { .. } | CrashPoint::Staged => old(self).store(),
                CrashPoint::CopyingBack { .. } | CrashPoint::CopiedBack => if old(self).accepts(
                    batch_view(batch@),
                ) {
                    old(self).store().apply_all(batch_view(batch@))
                } else {
                    old(self).store()
                },
            }),
            final(self).memory().capacity_spec() == old(self).memory().capacity_spec(),
            final(self).memory().faulty_spec() == old(self).memory().faulty_spec(),
            final(self).memory().fuse_spec() == old(self).memory().fuse_spec(),
            final(self).seed_spec() == old(self).seed_spec(),
    {
        self.store.commit_interrupted(batch, point);
    }

    /// Brings the store into order after a write was cut short; what it
    /// holds, its capacity and its fault switch do not change.
    pub fn recover(&mut self)
        ensures
            final(self).store() == old(self).store(),
            final(self).memory().settled(),
            final(self).memory().capacity_spec() == old(self).memory().capacity_spec(),
            final(self).memory().faulty_spec() == old(self).memory().faulty_spec(),
            final(self).memory().fuse_spec() == old(self).memory().fuse_spec(),
            final(self).seed_spec() == old(self).seed_spec(),
    {
        self.store.recover();
    }
}

impl Persist for TestEnv {
    open spec fn store(&self) -> StoreModel {
        self.memory().store()
    }

    open spec fn accepts(&self, batch: Seq<UpdateView>) -> bool {
        self.memory().accepts(batch)
    }

    fn get_attestation(&self, id: AttestationId) -> (attestation: Option<Attestation>) {
        self.store.get_attestation(id)
    }

    fn credential_count(&self) -> (count: usize) {
        self.store.credential_count()
    }

    fn credential_at(&self, index: usize) -> (credential: Credential) {
        self.store.credential_at(index)
    }

    fn pin(&self) -> (pin: Option<PinRecord>) {
        self.store.pin()
    }

    fn enterprise_attestation_enabled(&self) -> (enabled: bool) {
        self.store.enterprise_attestation_enabled()
    }

    fn reset_in_progress(&self) -> (marked: bool) {
        self.store.reset_in_progress()
    }

    fn commit(&mut self, batch: &Vec<Update>) -> (outcome: Result<(), StorageError>)
        ensures
            final(self).seed_spec() == old(self).seed_spec(),
            final(self).memory().capacity_spec() == old(self).memory().capacity_spec(),
            outcome is Ok ==> final(self).memory().faulty_spec() == blown(
                old(self).memory().fuse_spec(),
            ) && final(self).memory().fuse_spec() == burnt(old(self).memory().fuse_spec()),
            outcome is Err ==> final(self).memory().faulty_spec() == old(
                self,
            ).memory().faulty_spec() && final(self).memory().fuse_spec() == old(
                self,
            ).memory().fuse_spec(),
    {
        self.store.commit(batch)
    }
}

impl Env for TestEnv {
    /// A stand-in for a hash: the salt, followed by the PIN.  It tells two
    /// PINs apart and hides nothing.
    open spec fn pin_hash(salt: Seq<u8>, pin: Seq<u8>) -> Seq<u8> {
        salt + pin
    }

    fn hash_pin(&self, salt: &Vec<u8>, pin: &Secret) -> (hash: Secret) {
        let mut bytes: Vec<u8> = Vec::new();
        let mut i: usize = 0;
        while i < salt.len()
            invariant
                i <= salt.len(),
                bytes@ == salt@.take(i as int),
            decreases salt.len() - i,
        {
            bytes.push(salt[i]);
            assert(salt@.take(i + 1) == salt@.take(i as int).push(salt@[i as int]));
            i = i + 1;
        }
        assert(salt@.take(i as int) == salt@);
        let exposed = pin.expose();
        let mut j: usize = 0;
        while j < exposed.len()
            invariant
                j <= exposed.len(),
                bytes@ == salt@ + exposed@.take(j as int),
            decreases exposed.len() - j,
        {
            bytes.push(exposed[j]);
            assert(exposed@.take(j + 1) == exposed@.take(j as int).push(exposed@[j as int]));
            assert(salt@ + exposed@.take(j + 1) =~= (salt@ + exposed@.take(j as int)).push(
                exposed@[j as int],
            ));
            j = j + 1;
        }
        assert(exposed@.take(j as int) == exposed@);
        Secret::from_exposed_secret(bytes)
    }

    /// The secret of which every byte is the seed.
    fn generate_secret(&self) -> (secret: Secret)
        ensures
            secret@ == Seq::new(FRESH_SECRET_LENGTH as nat, |i: int| self.seed_spec()),
    {
        let mut bytes: Vec<u8> = Vec::new();
        let mut i: usize = 0;
        while i < FRESH_SECRET_LENGTH
            invariant
                i <= FRESH_SECRET_LENGTH,
                bytes.len() == i,
                forall|k: int| 0 <= k < i ==> bytes@[k] == self.seed,
            decreases FRESH_SECRET_LENGTH - i,
        {
            bytes.push(self.seed);
            i = i + 1;
        }
        assert(bytes@ =~= Seq::new(FRESH_SECRET_LENGTH as nat, |i: int| self.seed_spec()));
        Secret::from_exposed_secret(bytes)
    }
}

} // verus!
