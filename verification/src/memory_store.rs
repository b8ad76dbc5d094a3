//! A durable store that lives in memory and writes as a durable medium
//! must: through a shadow copy that becomes visible in one step.
//!
//! A write first builds the new state in the shadow tables, then makes the
//! shadow live with a single flag, then copies it back over the main tables
//! and clears the flag.  What a reader observes is the main tables while the
//! flag is clear and the shadow tables while it is set, so that a write that
//! is cut short at any point leaves either the old state or the new one.

use crate::persist::{
    bytes_equal, batch_view, without_id, Attestation, AttestationId, Credential, CredentialView,
    Persist, PinRecord, StorageError, StoreModel, Update, UpdateView, option_view,
};
use vstd::prelude::*;

verus! {

/// The views of stored credentials, in order.
pub open spec fn credential_views(credentials: Seq<Credential>) -> Seq<CredentialView> {
    Seq::new(credentials.len(), |i: int| credentials[i]@)
}

fn duplicate_attestation(attestation: &Option<Attestation>) -> (copy: Option<Attestation>)
    ensures
        option_view(copy) == option_view(*attestation),
{
    match attestation {
        Some(value) => Some(value.duplicate()),
        None => None,
    }
}

fn duplicate_pin(pin: &Option<PinRecord>) -> (copy: Option<PinRecord>)
    ensures
        option_view(copy) == option_view(*pin),
{
    match pin {
        Some(value) => Some(value.duplicate()),
        None => None,
    }
}

fn duplicate_credentials(credentials: &Vec<Credential>) -> (copy: Vec<Credential>)
    ensures
        credential_views(copy@) == credential_views(credentials@),
{
    let mut copy: Vec<Credential> = Vec::new();
    let mut i: usize = 0;
    while i < credentials.len()
        invariant
            i <= credentials.len(),
            copy.len() == i,
            forall|j: int| 0 <= j < i ==> copy@[j]@ == credentials@[j]@,
        decreases credentials.len() - i,
    {
        copy.push(credentials[i].duplicate());
        i = i + 1;
    }
    assert(credential_views(copy@) =~= credential_views(credentials@));
    copy
}

/// One complete set of the values that the store keeps.
struct Tables {
    batch_attestation: Option<Attestation>,
    enterprise_attestation: Option<Attestation>,
    credentials: Vec<Credential>,
    pin: Option<PinRecord>,
    enterprise_attestation_enabled: bool,
    reset_in_progress: bool,
}

impl View for Tables {
    type V = StoreModel;

    closed spec fn view(&self) -> StoreModel {
        StoreModel {
            batch_attestation: option_view(self.batch_attestation),
            enterprise_attestation: option_view(self.enterprise_attestation),
            credentials: credential_views(self.credentials@),
            pin: option_view(self.pin),
            enterprise_attestation_enabled: self.enterprise_attestation_enabled,
            reset_in_progress: self.reset_in_progress,
        }
    }
}

impl Tables {
    fn new() -> (tables: Tables)
        ensures
            tables@ == StoreModel::empty(),
    {
        let tables = Tables {
            batch_attestation: None,
            enterprise_attestation: None,
            credentials: Vec::new(),
            pin: None,
            enterprise_attestation_enabled: false,
            reset_in_progress: false,
        };
        assert(tables@.credentials =~= Seq::<CredentialView>::empty());
        tables
    }

    fn duplicate(&self) -> (copy: Tables)
        ensures
            copy@ == self@,
    {
        Tables {
            batch_attestation: duplicate_attestation(&self.batch_attestation),
            enterprise_attestation: duplicate_attestation(&self.enterprise_attestation),
            credentials: duplicate_credentials(&self.credentials),
            pin: duplicate_pin(&self.pin),
            enterprise_attestation_enabled: self.enterprise_attestation_enabled,
            reset_in_progress: self.reset_in_progress,
        }
    }

    fn remove_id(&mut self, id: &Vec<u8>)
        ensures
            final(self)@ == (StoreModel {
                credentials: without_id(old(self)@.credentials, id@),
                ..old(self)@
            }),
    {
        let ghost all = credential_views(self.credentials@);
        let mut kept: Vec<Credential> = Vec::new();
        let mut i: usize = 0;
        assert(credential_views(kept@) =~= without_id(all.take(0), id@));
        while i < self.credentials.len()
            invariant
                i <= self.credentials.len(),
                all == credential_views(self.credentials@),
                credential_views(kept@) == without_id(all.take(i as int), id@),
                *self == *old(self),
            decreases self.credentials.len() - i,
        {
            let ghost before = credential_views(kept@);
            assert(all.take(i + 1).drop_last() == all.take(i as int));
            assert(all.take(i + 1).last() == self.credentials@[i as int]@);
            if !bytes_equal(&self.credentials[i].id, id) {
                kept.push(self.credentials[i].duplicate());
                assert(credential_views(kept@) =~= before.push(self.credentials@[i as int]@));
            }
            i = i + 1;
        }
        assert(all.take(i as int) == all);
        self.credentials = kept;
    }

    fn apply(&mut self, update: &Update)
        ensures
            final(self)@ == old(self)@.apply(update@),
    {
        match update {
            Update::SetAttestation { id, attestation } => {
                let copy = duplicate_attestation(attestation);
                match id {
                    AttestationId::Batch => {
                        self.batch_attestation = copy;
                    },
                    AttestationId::Enterprise => {
                        self.enterprise_attestation = copy;
                    },
                }
            },
            Update::PutCredential(credential) => {
                self.remove_id(&credential.id);
                let ghost before = credential_views(self.credentials@);
                self.credentials.push(credential.duplicate());
                assert(credential_views(self.credentials@) =~= before.push(credential@));
            },
            Update::DeleteCredential(id) => {
                self.remove_id(id);
            },
            Update::SetPin(pin) => {
                self.pin = duplicate_pin(pin);
            },
            Update::SetEnterpriseAttestation(on) => {
                self.enterprise_attestation_enabled = *on;
            },
            Update::SetResetInProgress(on) => {
                self.reset_in_progress = *on;
            },
        }
    }
}

/// Where a write is cut short.
#[derive(Clone, Copy, Debug)]
pub enum CrashPoint {
    /// While the shadow copy is built: `applied` updates of the batch are in it.
    Staging { applied: usize },
    /// After the shadow copy is complete and before it is made live.
    Staged,
    /// After the shadow copy was made live, while it is copied over the main
    /// tables: `copied` of the six tables are copied.
    CopyingBack { copied: u8 },
    /// After the copy is complete and before the shadow copy is retired.
    CopiedBack,
}

/// The number of tables that a store keeps.
pub const TABLE_COUNT: u8 = 6;

/// A durable store in memory, with a bound on the credentials it holds, a
/// switch that makes it refuse writes, a fuse that throws the switch after
/// a number of writes, and writes that can be cut short.
pub struct MemoryStore {
    main: Tables,
    shadow: Tables,
    shadow_live: bool,
    capacity: usize,
    faulty: bool,
    fuse: Option<usize>,
}

/// Whether the write that is taken next blows the fuse.
pub open spec fn blown(fuse: Option<usize>) -> bool {
    fuse is Some && fuse->0 <= 1
}

/// The fuse after a write was taken.
pub open spec fn burnt(fuse: Option<usize>) -> Option<usize> {
    if fuse is Some && fuse->0 > 1 {
        Some((fuse->0 - 1) as usize)
    } else {
        None
    }
}

impl MemoryStore {
    /// The number of credentials that fit.
    pub closed spec fn capacity_spec(&self) -> nat {
        self.capacity as nat
    }

    /// Whether the store refuses every write.
    pub closed spec fn faulty_spec(&self) -> bool {
        self.faulty
    }

    /// The number of writes that the store still takes before it refuses
    /// every write; `None` where no fuse is set.
    pub closed spec fn fuse_spec(&self) -> Option<usize> {
        self.fuse
    }

    /// Whether no write is under way: the main tables are the live ones.
    pub closed spec fn settled(&self) -> bool {
        !self.shadow_live
    }

    /// An empty store that holds up to `capacity` credentials.
    pub fn new(capacity: usize) -> (store: MemoryStore)
        ensures
            store.store() == StoreModel::empty(),
            store.capacity_spec() == capacity,
            !store.faulty_spec(),
            store.fuse_spec() is None,
            store.settled(),
    {
        MemoryStore {
            main: Tables::new(),
            shadow: Tables::new(),
            shadow_live: false,
            capacity,
            faulty: false,
            fuse: None,
        }
    }

    /// The number of credentials that fit.
    pub fn capacity(&self) -> (capacity: usize)
        ensures
            capacity == self.capacity_spec(),
    {
        self.capacity
    }

    /// Makes the store refuse every write from now on, or take writes again.
    pub fn set_faulty(&mut self, faulty: bool)
        ensures
            final(self).faulty_spec() == faulty,
            final(self).fuse_spec() == old(self).fuse_spec(),
            final(self).store() == old(self).store(),
            final(self).capacity_spec() == old(self).capacity_spec(),
            final(self).settled() == old(self).settled(),
    {
        self.faulty = faulty;
    }

    /// Sets the fuse: the store takes `writes` more writes and refuses every
    /// write after them.  With no write left it refuses from now on.
    pub fn fail_after(&mut self, writes: usize)
        ensures
            final(self).faulty_spec() == (old(self).faulty_spec() || writes == 0),
            final(self).fuse_spec() == (if writes == 0 {
                None
            } else {
                Some(writes)
            }),
            final(self).store() == old(self).store(),
            final(self).capacity_spec() == old(self).capacity_spec(),
            final(self).settled() == old(self).settled(),
    {
        if writes == 0 {
            self.faulty = true;
            self.fuse = None;
        } else {
            self.fuse = Some(writes);
        }
    }

    fn live(&self) -> (tables: &Tables)
        ensures
            tables@ == self.store(),
            *tables == (if self.shadow_live {
                self.shadow
            } else {
                self.main
            }),
    {
        if self.shadow_live {
            &self.shadow
        } else {
            &self.main
        }
    }

    /// Builds the shadow copy: the live state with the first `count` updates
    /// of the batch applied.
    fn stage(&mut self, batch: &Vec<Update>, count: usize)
        requires
            !old(self).shadow_live,
            count <= batch.len(),
        ensures
            final(self).main == old(self).main,
            !final(self).shadow_live,
            final(self).capacity == old(self).capacity,
            final(self).faulty == old(self).faulty,
            final(self).fuse == old(self).fuse,
            final(self).shadow@ == old(self).main@.apply_all(batch_view(batch@).take(count as int)),
    {
        self.shadow = self.main.duplicate();
        let ghost views = batch_view(batch@);
        let mut i: usize = 0;
        assert(views.take(0).len() == 0);
        while i < count
            invariant
                i <= count <= batch.len(),
                views == batch_view(batch@),
                self.main == old(self).main,
                !self.shadow_live,
                self.capacity == old(self).capacity,
                self.faulty == old(self).faulty,
                self.fuse == old(self).fuse,
                self.shadow@ == self.main@.apply_all(views.take(i as int)),
            decreases count - i,
        {
            assert(views.take(i + 1).drop_last() == views.take(i as int));
            assert(views.take(i + 1).last() == batch@[i as int]@);
            self.shadow.apply(&batch[i]);
            i = i + 1;
        }
    }

    /// Copies the first `count` tables of the shadow copy over the main ones.
    fn copy_back(&mut self, count: u8)
        requires
            old(self).shadow_live,
        ensures
            final(self).shadow == old(self).shadow,
            final(self).shadow_live,
            final(self).capacity == old(self).capacity,
            final(self).faulty == old(self).faulty,
            final(self).fuse == old(self).fuse,
            count >= TABLE_COUNT ==> final(self).main@ == final(self).shadow@,
    {
        if count >= 1 {
            self.main.batch_attestation = duplicate_attestation(&self.shadow.batch_attestation);
        }
        if count >= 2 {
            self.main.enterprise_attestation = duplicate_attestation(
                &self.shadow.enterprise_attestation,
            );
        }
        if count >= 3 {
            self.main.credentials = duplicate_credentials(&self.shadow.credentials);
        }
        if count >= 4 {
            self.main.pin = duplicate_pin(&self.shadow.pin);
        }
        if count >= 5 {
            self.main.enterprise_attestation_enabled = self.shadow.enterprise_attestation_enabled;
        }
        if count >= 6 {
            self.main.reset_in_progress = self.shadow.reset_in_progress;
        }
    }

    /// Brings a store into order after a write was cut short: a shadow copy
    /// that was live is copied back and retired, one that was not is ignored.
    /// What the store holds does not change.
    pub fn recover(&mut self)
        ensures
            final(self).settled(),
            final(self).store() == old(self).store(),
            final(self).capacity_spec() == old(self).capacity_spec(),
            final(self).faulty_spec() == old(self).faulty_spec(),
            final(self).fuse_spec() == old(self).fuse_spec(),
    {
        if self.shadow_live {
            self.copy_back(TABLE_COUNT);
            self.shadow_live = false;
        }
    }

    /// Begins the write of a batch and cuts it short at `point`, as a loss of
    /// power would.  The store then holds what it held before the write, or,
    /// once the shadow copy was made live, what the whole batch makes of it:
    /// never anything in between.
    pub fn commit_interrupted(&mut self, batch: &Vec<Update>, point: CrashPoint)
        ensures
            final(self).store() == old(self).store() || final(self).store() == old(
                self,
            ).store().apply_all(batch_view(batch@)),
            final(self).store() == (match point {
                CrashPoint::Staging { .. } | CrashPoint::Staged => old(self).store(),
                CrashPoint::CopyingBack { .. } | CrashPoint::CopiedBack => if old(self).accepts(
                    batch_view(batch@),
                ) {
                    old(self).store().apply_all(batch_view(batch@))
                } else {
                    old(self).store()
                },
            }),
            final(self).capacity_spec() == old(self).capacity_spec(),
            final(self).faulty_spec() == old(self).faulty_spec(),
            final(self).fuse_spec() == old(self).fuse_spec(),
    {
        self.recover();
        let ghost views = batch_view(batch@);
        assert(views.take(views.len() as int) == views);
        match point {
            CrashPoint::Staging { applied } => {
                let count = if applied < batch.len() {
                    applied
                } else {
                    batch.len()
                };
                self.stage(batch, count);
            },
            CrashPoint::Staged => {
                self.stage(batch, batch.len());
            },
            CrashPoint::CopyingBack { copied } => {
                self.stage(batch, batch.len());
                if !self.faulty && self.shadow.credentials.len() <= self.capacity {
                    self.shadow_live = true;
                    self.copy_back(copied);
                }
            },
            CrashPoint::CopiedBack => {
                self.stage(batch, batch.len());
                if !self.faulty && self.shadow.credentials.len() <= self.capacity {
                    self.shadow_live = true;
                    self.copy_back(TABLE_COUNT);
                }
            },
        }
    }
}

impl Persist for MemoryStore {
    closed spec fn store(&self) -> StoreModel {
        if self.shadow_live {
            self.shadow@
        } else {
            self.main@
        }
    }

    /// A batch is taken unless the store is switched to refuse, or the batch
    /// would leave more credentials than fit.
    open spec fn accepts(&self, batch: Seq<UpdateView>) -> bool {
        !self.faulty_spec() && self.store().apply_all(batch).credentials.len()
            <= self.capacity_spec()
    }

    fn get_attestation(&self, id: AttestationId) -> (attestation: Option<Attestation>) {
        let tables = self.live();
        match id {
            AttestationId::Batch => duplicate_attestation(&tables.batch_attestation),
            AttestationId::Enterprise => duplicate_attestation(&tables.enterprise_attestation),
        }
    }

    fn credential_count(&self) -> (count: usize) {
        self.live().credentials.len()
    }

    fn credential_at(&self, index: usize) -> (credential: Credential) {
        self.live().credentials[index].duplicate()
    }

    fn pin(&self) -> (pin: Option<PinRecord>) {
        duplicate_pin(&self.live().pin)
    }

    fn enterprise_attestation_enabled(&self) -> (enabled: bool) {
        self.live().enterprise_attestation_enabled
    }

    fn reset_in_progress(&self) -> (marked: bool) {
        self.live().reset_in_progress
    }

    fn commit(&mut self, batch: &Vec<Update>) -> (outcome: Result<(), StorageError>)
        ensures
            final(self).settled(),
            final(self).capacity_spec() == old(self).capacity_spec(),
            outcome is Ok ==> final(self).faulty_spec() == blown(old(self).fuse_spec())
                && final(self).fuse_spec() == burnt(old(self).fuse_spec()),
            outcome is Err ==> final(self).faulty_spec() == old(self).faulty_spec()
                && final(self).fuse_spec() == old(self).fuse_spec(),
            outcome is Err ==> outcome == Err::<(), StorageError>(
                if old(self).faulty_spec() {
                    StorageError::Fault
                } else {
                    StorageError::Capacity
                },
            ),
    {
        self.recover();
        let ghost views = batch_view(batch@);
        assert(views.take(views.len() as int) == views);
        self.stage(batch, batch.len());
        if self.faulty {
            return Err(StorageError::Fault);
        }
        if self.shadow.credentials.len() > self.capacity {
            return Err(StorageError::Capacity);
        }
        self.shadow_live = true;
        self.copy_back(TABLE_COUNT);
        self.shadow_live = false;
        match self.fuse {
            Some(writes) if writes > 1 => {
                self.fuse = Some(writes - 1);
            },
            Some(_) => {
                self.faulty = true;
                self.fuse = None;
            },
            None => {},
        }
        Ok(())
    }
}

} // verus!
