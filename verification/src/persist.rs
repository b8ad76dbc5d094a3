//! Durable storage: what the authenticator keeps across power cycles,
//! and the contract under which the core reads and writes it.
//!
//! The durable state is a key-addressed store.  Attestations are kept by
//! [`AttestationId`], credentials by their identifier, and the global values
//! (PIN record, enterprise-attestation flag, reset marker) by name.  Every
//! write is a batch of [`Update`]s that is applied as a whole or not at all.

use crate::secret::Secret;
use crate::status::{CtapError, CtapResult};
use vstd::prelude::*;

verus! {

/// The length of an attestation private key, in bytes.
pub const ATTESTATION_PRIVATE_KEY_LENGTH: usize = 32;

/// The view of an optional value: the view of what it holds.
pub open spec fn option_view<T: View>(value: Option<T>) -> Option<T::V> {
    match value {
        Some(inner) => Some(inner@),
        None => None,
    }
}

/// Whether two byte strings are equal.
pub fn bytes_equal(a: &Vec<u8>, b: &Vec<u8>) -> (same: bool)
    ensures
        same == (a@ == b@),
{
    if a.len() != b.len() {
        return false;
    }
    let mut i: usize = 0;
    while i < a.len()
        invariant
            i <= a.len(),
            a.len() == b.len(),
            forall|j: int| 0 <= j < i ==> a@[j] == b@[j],
        decreases a.len() - i,
    {
        if a[i] != b[i] {
            return false;
        }
        i = i + 1;
    }
    assert(a@ =~= b@);
    true
}

/// A copy of a byte string.
pub fn copy_bytes(bytes: &Vec<u8>) -> (copy: Vec<u8>)
    ensures
        copy@ == bytes@,
{
    let mut copy: Vec<u8> = Vec::with_capacity(bytes.len());
    let mut i: usize = 0;
    while i < bytes.len()
        invariant
            i <= bytes.len(),
            copy@ == bytes@.take(i as int),
        decreases bytes.len() - i,
    {
        copy.push(bytes[i]);
        assert(bytes@.take(i + 1) == bytes@.take(i as int).push(bytes@[i as int]));
        i = i + 1;
    }
    assert(bytes@.take(i as int) == bytes@);
    copy
}

/// Which attestation identity a record belongs to.
#[derive(Clone, Copy, PartialEq, Eq, Structural, Debug)]
pub enum AttestationId {
    /// The identity shared by a batch of devices.
    Batch,
    /// The identity that an enterprise provisions.
    Enterprise,
}

/// A key pair and certificate that vouch for the credentials a device makes.
pub struct Attestation {
    pub private_key: Secret,
    pub certificate: Vec<u8>,
}

/// What an [`Attestation`] holds.
pub struct AttestationView {
    pub private_key: Seq<u8>,
    pub certificate: Seq<u8>,
}

impl View for Attestation {
    type V = AttestationView;

    open spec fn view(&self) -> AttestationView {
        AttestationView { private_key: self.private_key@, certificate: self.certificate@ }
    }
}

impl Attestation {
    /// An explicit copy, private key included.
    pub fn duplicate(&self) -> (copy: Attestation)
        ensures
            copy@ == self@,
    {
        Attestation {
            private_key: self.private_key.duplicate(),
            certificate: copy_bytes(&self.certificate),
        }
    }

    /// Whether the private key has the length that a key must have.
    pub fn has_valid_key(&self) -> (valid: bool)
        ensures
            valid == (self@.private_key.len() == ATTESTATION_PRIVATE_KEY_LENGTH),
    {
        self.private_key.len() == ATTESTATION_PRIVATE_KEY_LENGTH
    }
}

/// A stored credential.
pub struct Credential {
    pub id: Vec<u8>,
    pub rp_id: Vec<u8>,
    pub user_handle: Vec<u8>,
    pub private_key: Secret,
}

/// What a [`Credential`] holds.
pub struct CredentialView {
    pub id: Seq<u8>,
    pub rp_id: Seq<u8>,
    pub user_handle: Seq<u8>,
    pub private_key: Seq<u8>,
}

impl View for Credential {
    type V = CredentialView;

    open spec fn view(&self) -> CredentialView {
        CredentialView {
            id: self.id@,
            rp_id: self.rp_id@,
            user_handle: self.user_handle@,
            private_key: self.private_key@,
        }
    }
}

impl Credential {
    /// An explicit copy, private key included.
    pub fn duplicate(&self) -> (copy: Credential)
        ensures
            copy@ == self@,
    {
        Credential {
            id: copy_bytes(&self.id),
            rp_id: copy_bytes(&self.rp_id),
            user_handle: copy_bytes(&self.user_handle),
            private_key: self.private_key.duplicate(),
        }
    }
}

/// The stored PIN: its salted hash and the attempts that are left.
///
/// The three values are one record, so that a new hash and a fresh retry
/// counter can never be observed apart.
pub struct PinRecord {
    pub hash: Secret,
    pub salt: Vec<u8>,
    pub retries: u8,
}

/// What a [`PinRecord`] holds.
pub struct PinView {
    pub hash: Seq<u8>,
    pub salt: Seq<u8>,
    pub retries: u8,
}

impl View for PinRecord {
    type V = PinView;

    open spec fn view(&self) -> PinView {
        PinView { hash: self.hash@, salt: self.salt@, retries: self.retries }
    }
}

impl PinRecord {
    /// An explicit copy, hash included.
    pub fn duplicate(&self) -> (copy: PinRecord)
        ensures
            copy@ == self@,
    {
        PinRecord {
            hash: self.hash.duplicate(),
            salt: copy_bytes(&self.salt),
            retries: self.retries,
        }
    }

    /// The same PIN with another number of attempts left.
    pub fn with_retries(&self, retries: u8) -> (record: PinRecord)
        ensures
            record@ == (PinView { retries, ..self@ }),
    {
        PinRecord { hash: self.hash.duplicate(), salt: copy_bytes(&self.salt), retries }
    }
}

/// One change to one key of the store.
pub enum Update {
    /// Overwrites the attestation of an identity, or erases it with `None`.
    SetAttestation { id: AttestationId, attestation: Option<Attestation> },
    /// Stores a credential under its identifier, replacing one of that identifier.
    PutCredential(Credential),
    /// Erases the credential of an identifier.
    DeleteCredential(Vec<u8>),
    /// Overwrites the PIN record, or erases it with `None`.
    SetPin(Option<PinRecord>),
    /// Sets the flag that says enterprise attestation is enabled.
    SetEnterpriseAttestation(bool),
    /// Sets the marker that says a factory reset has begun.
    SetResetInProgress(bool),
}

/// What an [`Update`] holds.
pub enum UpdateView {
    SetAttestation { id: AttestationId, attestation: Option<AttestationView> },
    PutCredential(CredentialView),
    DeleteCredential(Seq<u8>),
    SetPin(Option<PinView>),
    SetEnterpriseAttestation(bool),
    SetResetInProgress(bool),
}

impl View for Update {
    type V = UpdateView;

    open spec fn view(&self) -> UpdateView {
        match *self {
            Update::SetAttestation { id, attestation } => UpdateView::SetAttestation {
                id,
                attestation: option_view(attestation),
            },
            Update::PutCredential(credential) => UpdateView::PutCredential(credential@),
            Update::DeleteCredential(id) => UpdateView::DeleteCredential(id@),
            Update::SetPin(pin) => UpdateView::SetPin(option_view(pin)),
            Update::SetEnterpriseAttestation(on) => UpdateView::SetEnterpriseAttestation(on),
            Update::SetResetInProgress(on) => UpdateView::SetResetInProgress(on),
        }
    }
}

/// The views of the updates of a batch, in order.
pub open spec fn batch_view(batch: Seq<Update>) -> Seq<UpdateView> {
    Seq::new(batch.len(), |i: int| batch[i]@)
}

/// The credentials of `credentials` whose identifier is not `id`, in order.
pub open spec fn without_id(credentials: Seq<CredentialView>, id: Seq<u8>) -> Seq<CredentialView>
    decreases credentials.len(),
{
    if credentials.len() == 0 {
        credentials
    } else if credentials.last().id == id {
        without_id(credentials.drop_last(), id)
    } else {
        without_id(credentials.drop_last(), id).push(credentials.last())
    }
}

/// The credential stored under `id`, if there is one (the latest, should
/// several share the identifier).
pub open spec fn lookup(credentials: Seq<CredentialView>, id: Seq<u8>) -> Option<CredentialView>
    decreases credentials.len(),
{
    if credentials.len() == 0 {
        None
    } else if credentials.last().id == id {
        Some(credentials.last())
    } else {
        lookup(credentials.drop_last(), id)
    }
}

/// The durable state, as the core observes it.
#[verifier::ext_equal]
pub struct StoreModel {
    pub batch_attestation: Option<AttestationView>,
    pub enterprise_attestation: Option<AttestationView>,
    /// The stored credentials, the one written last at the end.
    pub credentials: Seq<CredentialView>,
    pub pin: Option<PinView>,
    pub enterprise_attestation_enabled: bool,
    pub reset_in_progress: bool,
}

impl StoreModel {
    /// The state of a device that holds nothing.
    pub open spec fn empty() -> StoreModel {
        StoreModel {
            batch_attestation: None,
            enterprise_attestation: None,
            credentials: Seq::empty(),
            pin: None,
            enterprise_attestation_enabled: false,
            reset_in_progress: false,
        }
    }

    /// The attestation of an identity; `None` where none was provisioned.
    pub open spec fn attestation(self, id: AttestationId) -> Option<AttestationView> {
        match id {
            AttestationId::Batch => self.batch_attestation,
            AttestationId::Enterprise => self.enterprise_attestation,
        }
    }

    /// The state after one update.
    pub open spec fn apply(self, update: UpdateView) -> StoreModel {
        match update {
            UpdateView::SetAttestation { id, attestation } => match id {
                AttestationId::Batch => StoreModel { batch_attestation: attestation, ..self },
                AttestationId::Enterprise => StoreModel {
                    enterprise_attestation: attestation,
                    ..self
                },
            },
            UpdateView::PutCredential(credential) => StoreModel {
                credentials: without_id(self.credentials, credential.id).push(credential),
                ..self
            },
            UpdateView::DeleteCredential(id) => StoreModel {
                credentials: without_id(self.credentials, id),
                ..self
            },
            UpdateView::SetPin(pin) => StoreModel { pin, ..self },
            UpdateView::SetEnterpriseAttestation(on) => StoreModel {
                enterprise_attestation_enabled: on,
                ..self
            },
            UpdateView::SetResetInProgress(on) => StoreModel { reset_in_progress: on, ..self },
        }
    }

    /// The state after the updates of a batch, applied in order.
    pub open spec fn apply_all(self, batch: Seq<UpdateView>) -> StoreModel
        decreases batch.len(),
    {
        if batch.len() == 0 {
            self
        } else {
            self.apply_all(batch.drop_last()).apply(batch.last())
        }
    }

    /// Whether `later` is what an interrupted factory reset can leave of
    /// `self`: the marker is set, no credential is new, and nothing else has
    /// changed.
    pub open spec fn partly_erased_to(self, later: StoreModel) -> bool {
        &&& later.reset_in_progress
        &&& later.batch_attestation == self.batch_attestation
        &&& later.enterprise_attestation == self.enterprise_attestation
        &&& later.pin == self.pin
        &&& later.enterprise_attestation_enabled == self.enterprise_attestation_enabled
        &&& later.credentials.len() <= self.credentials.len()
        &&& forall|i: int|
            0 <= i < later.credentials.len() ==> self.credentials.contains(
                #[trigger] later.credentials[i],
            )
    }

    /// Whether a factory reset of `self` can end with `later`.  A reset whose
    /// first write, that of the marker, is refused (`marked` is false) fails
    /// and changes nothing.  One that goes through (`completed`) leaves the
    /// store empty.  One that is stopped on its way leaves the store partly
    /// erased, with the marker set.
    pub open spec fn reset_to(self, marked: bool, completed: bool, later: StoreModel) -> bool {
        if !marked {
            !completed && later == self
        } else if completed {
            later == StoreModel::empty()
        } else {
            self.partly_erased_to(later)
        }
    }
}

/// Removing an identifier never adds a credential, and leaves none of that
/// identifier.
pub proof fn lemma_without_id(credentials: Seq<CredentialView>, id: Seq<u8>)
    ensures
        without_id(credentials, id).len() <= credentials.len(),
        forall|i: int|
            0 <= i < without_id(credentials, id).len() ==> {
                &&& credentials.contains(#[trigger] without_id(credentials, id)[i])
                &&& without_id(credentials, id)[i].id != id
            },
        lookup(without_id(credentials, id), id) is None,
        credentials.len() > 0 && credentials.last().id == id ==> without_id(credentials, id).len()
            < credentials.len(),
    decreases credentials.len(),
{
    if credentials.len() > 0 {
        let rest = credentials.drop_last();
        lemma_without_id(rest, id);
        let kept = without_id(credentials, id);
        assert forall|i: int| 0 <= i < kept.len() implies {
            &&& credentials.contains(#[trigger] kept[i])
            &&& kept[i].id != id
        } by {
            if i < without_id(rest, id).len() {
                let c = without_id(rest, id)[i];
                assert(kept[i] == c);
                assert(rest.contains(c));
                let j = choose|j: int| 0 <= j < rest.len() && rest[j] == c;
                assert(credentials[j] == c);
            } else {
                assert(kept[i] == credentials.last());
                assert(credentials[credentials.len() - 1] == kept[i]);
            }
        }
        if credentials.last().id != id {
            assert(kept.drop_last() == without_id(rest, id));
        }
    }
}

/// Why the medium refused a write.
#[derive(Clone, Copy, PartialEq, Eq, Structural, Debug)]
pub enum StorageError {
    /// The write does not fit into the medium.
    Capacity,
    /// The medium reported a fault.
    Fault,
}

/// The durable-storage capability that the core is given.
///
/// The core is the only writer.  It reads single keys and writes through
/// [`Persist::commit`] alone, which applies a batch as a whole or not at all.
pub trait Persist {
    /// The durable state.
    spec fn store(&self) -> StoreModel;

    /// Whether the medium takes this batch in its present state.
    spec fn accepts(&self, batch: Seq<UpdateView>) -> bool;

    /// The attestation of an identity; `None` where none was provisioned.
    fn get_attestation(&self, id: AttestationId) -> (attestation: Option<Attestation>)
        ensures
            option_view(attestation) == self.store().attestation(id),
    ;

    /// The number of stored credentials.
    fn credential_count(&self) -> (count: usize)
        ensures
            count == self.store().credentials.len(),
    ;

    /// The stored credential at a position of the enumeration.
    fn credential_at(&self, index: usize) -> (credential: Credential)
        requires
            index < self.store().credentials.len(),
        ensures
            credential@ == self.store().credentials[index as int],
    ;

    /// The PIN record; `None` where no PIN is set.
    fn pin(&self) -> (pin: Option<PinRecord>)
        ensures
            option_view(pin) == self.store().pin,
    ;

    /// Whether enterprise attestation is enabled.
    fn enterprise_attestation_enabled(&self) -> (enabled: bool)
        ensures
            enabled == self.store().enterprise_attestation_enabled,
    ;

    /// Whether a factory reset has begun and not ended.
    fn reset_in_progress(&self) -> (marked: bool)
        ensures
            marked == self.store().reset_in_progress,
    ;

    /// Applies the updates of a batch in order, as one atomic write: after
    /// the call, and after any crash during it, the store holds either all of
    /// them or none.
    fn commit(&mut self, batch: &Vec<Update>) -> (outcome: Result<(), StorageError>)
        ensures
            outcome is Ok <==> old(self).accepts(batch_view(batch@)),
            outcome is Ok ==> final(self).store() == old(self).store().apply_all(
                batch_view(batch@),
            ),
            outcome is Err ==> final(self).store() == old(self).store(),
    ;
}

/// The batch that holds one update.
pub fn single(update: Update) -> (batch: Vec<Update>)
    ensures
        batch_view(batch@) == seq![update@],
{
    let mut batch: Vec<Update> = Vec::new();
    batch.push(update);
    assert(batch_view(batch@) =~= seq![update@]);
    batch
}

/// A batch of one update changes the store as that update does.
pub proof fn lemma_apply_single(store: StoreModel, update: UpdateView)
    ensures
        store.apply_all(seq![update]) == store.apply(update),
{
    let batch = seq![update];
    assert(batch.drop_last() =~= Seq::<UpdateView>::empty());
    assert(store.apply_all(batch.drop_last()) == store);
}

/// A batch of two updates changes the store as the first and then the second.
pub proof fn lemma_apply_pair(store: StoreModel, first: UpdateView, second: UpdateView)
    ensures
        store.apply_all(seq![first, second]) == store.apply(first).apply(second),
{
    let batch = seq![first, second];
    assert(batch.drop_last() =~= seq![first]);
    lemma_apply_single(store, first);
}

/// Writes the attestation of an identity, or erases it with `None`, as one
/// atomic write.  A write that the medium refuses changes nothing.
pub fn set_attestation<P: Persist>(
    store: &mut P,
    id: AttestationId,
    attestation: Option<&Attestation>,
) -> (outcome: CtapResult<()>)
    ensures
        outcome is Ok <==> old(store).accepts(
            seq![UpdateView::SetAttestation { id, attestation: option_view(attestation) }],
        ),
        outcome is Ok ==> final(store).store() == old(store).store().apply(
            UpdateView::SetAttestation { id, attestation: option_view(attestation) },
        ),
        outcome is Ok ==> final(store).store().attestation(id) == option_view(attestation),
        outcome is Err ==> outcome == Err::<(), CtapError>(CtapError::StorageFailure)
            && final(store).store() == old(store).store(),
{
    let copy = match attestation {
        Some(value) => Some(value.duplicate()),
        None => None,
    };
    let batch = single(Update::SetAttestation { id, attestation: copy });
    proof {
        lemma_apply_single(
            store.store(),
            UpdateView::SetAttestation { id, attestation: option_view(attestation) },
        );
    }
    match store.commit(&batch) {
        Ok(()) => Ok(()),
        Err(_) => Err(CtapError::StorageFailure),
    }
}

/// Looks a credential up by its identifier.
pub fn find_credential<P: Persist>(store: &P, id: &Vec<u8>) -> (found: Option<Credential>)
    ensures
        option_view(found) == lookup(store.store().credentials, id@),
{
    let mut i = store.credential_count();
    assert(store.store().credentials.take(i as int) =~= store.store().credentials);
    while i > 0
        invariant
            i <= store.store().credentials.len(),
            lookup(store.store().credentials, id@) == lookup(
                store.store().credentials.take(i as int),
                id@,
            ),
        decreases i,
    {
        let ghost prefix = store.store().credentials.take(i as int);
        let credential = store.credential_at(i - 1);
        assert(prefix.last() == credential@);
        assert(prefix.drop_last() == store.store().credentials.take(i - 1));
        if bytes_equal(&credential.id, id) {
            return Some(credential);
        }
        i = i - 1;
    }
    assert(store.store().credentials.take(0).len() == 0);
    None
}

/// The last write of a factory reset: it erases the attestations, the PIN
/// and the flags together with the reset marker.
pub open spec fn closing_writes() -> Seq<UpdateView> {
    seq![
        UpdateView::SetAttestation { id: AttestationId::Batch, attestation: None },
        UpdateView::SetAttestation { id: AttestationId::Enterprise, attestation: None },
        UpdateView::SetPin(None),
        UpdateView::SetEnterpriseAttestation(false),
        UpdateView::SetResetInProgress(false),
    ]
}

/// The write that a factory reset makes next on a store whose marker is
/// set: the erasure of the last credential while there is one, and the
/// closing write once there is none.
pub open spec fn next_reset_write(store: StoreModel) -> Seq<UpdateView> {
    if store.credentials.len() > 0 {
        seq![UpdateView::DeleteCredential(store.credentials.last().id)]
    } else {
        closing_writes()
    }
}

/// Whether the medium stopped a factory reset at `later`: a medium that
/// holds `later` refuses the write that the reset makes next.
pub open spec fn reset_stopped<P: Persist>(later: StoreModel) -> bool {
    exists|refusing: P|
        refusing.store() == later && !#[trigger] refusing.accepts(
            next_reset_write(refusing.store()),
        )
}

/// The closing write makes a store without credentials empty.
pub proof fn lemma_closing_writes(store: StoreModel)
    requires
        store.credentials.len() == 0,
    ensures
        store.apply_all(closing_writes()) == StoreModel::empty(),
{
    let views = closing_writes();
    reveal_with_fuel(StoreModel::apply_all, 6);
    assert(views.drop_last().drop_last().drop_last().drop_last().drop_last().len() == 0);
    assert(store.credentials =~= Seq::<CredentialView>::empty());
    assert(store.apply_all(views) =~= StoreModel::empty());
}

/// The batch of the closing write of a factory reset.
pub fn closing_batch() -> (batch: Vec<Update>)
    ensures
        batch_view(batch@) == closing_writes(),
{
    let mut batch: Vec<Update> = Vec::new();
    batch.push(Update::SetAttestation { id: AttestationId::Batch, attestation: None });
    batch.push(Update::SetAttestation { id: AttestationId::Enterprise, attestation: None });
    batch.push(Update::SetPin(None));
    batch.push(Update::SetEnterpriseAttestation(false));
    batch.push(Update::SetResetInProgress(false));
    assert(batch_view(batch@) =~= closing_writes());
    batch
}

/// Erases everything the device holds.
///
/// The reset marker is set first, the credentials are then erased one by
/// one, the last one first, and a closing write erases the attestations,
/// the PIN and the flags together with the marker.  The reset goes on for
/// as long as the medium takes the writes, and ends with the store empty.
/// The first write that the medium refuses stops it with a storage failure:
/// nothing has changed if that was the write of the marker; else the marker
/// is set, the store is partly erased, and it is the write that comes next
/// on that store which the medium refused.  A later call takes the reset up
/// again.
pub fn factory_reset<P: Persist>(store: &mut P) -> (outcome: CtapResult<()>)
    ensures
        outcome is Err ==> outcome == Err::<(), CtapError>(CtapError::StorageFailure),
        old(store).store().reset_to(
            old(store).accepts(seq![UpdateView::SetResetInProgress(true)]),
            outcome is Ok,
            final(store).store(),
        ),
        outcome is Err && old(store).accepts(seq![UpdateView::SetResetInProgress(true)])
            ==> reset_stopped::<P>(final(store).store()),
{
    let mark = single(Update::SetResetInProgress(true));
    proof {
        lemma_apply_single(store.store(), UpdateView::SetResetInProgress(true));
    }
    if store.commit(&mark).is_err() {
        return Err(CtapError::StorageFailure);
    }
    assert(old(store).store().partly_erased_to(store.store())) by {
        assert forall|i: int| 0 <= i < store.store().credentials.len() implies old(
            store,
        ).store().credentials.contains(#[trigger] store.store().credentials[i]) by {
            assert(old(store).store().credentials[i] == store.store().credentials[i]);
        }
    }
    let mut left = store.credential_count();
    while left > 0
        invariant
            left == store.store().credentials.len(),
            old(store).store().partly_erased_to(store.store()),
            old(store).accepts(seq![UpdateView::SetResetInProgress(true)]),
        decreases left,
    {
        let last = store.credential_at(left - 1);
        let ghost refusing = *store;
        let ghost before = store.store();
        let erase = single(Update::DeleteCredential(copy_bytes(&last.id)));
        proof {
            lemma_apply_single(before, UpdateView::DeleteCredential(last.id@));
            lemma_without_id(before.credentials, last.id@);
            assert(batch_view(erase@) == next_reset_write(before));
        }
        if store.commit(&erase).is_err() {
            assert(refusing.store() == store.store() && !refusing.accepts(
                next_reset_write(refusing.store()),
            ));
            return Err(CtapError::StorageFailure);
        }
        proof {
            let after = store.store();
            assert forall|i: int| 0 <= i < after.credentials.len() implies old(
                store,
            ).store().credentials.contains(#[trigger] after.credentials[i]) by {
                let c = after.credentials[i];
                assert(before.credentials.contains(c));
                let j = choose|j: int| 0 <= j < before.credentials.len() && before.credentials[j]
                    == c;
                assert(old(store).store().credentials.contains(before.credentials[j]));
            }
        }
        left = store.credential_count();
    }
    let finish = closing_batch();
    let ghost refusing = *store;
    proof {
        lemma_closing_writes(store.store());
        assert(batch_view(finish@) == next_reset_write(store.store()));
    }
    match store.commit(&finish) {
        Ok(()) => Ok(()),
        Err(_) => {
            assert(refusing.store() == store.store() && !refusing.accepts(
                next_reset_write(refusing.store()),
            ));
            Err(CtapError::StorageFailure)
        },
    }
}

} // verus!
