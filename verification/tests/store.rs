use opensk::memory_store::{CrashPoint, MemoryStore};
use opensk::persist::{
    bytes_equal, closing_batch, copy_bytes, factory_reset, find_credential, set_attestation,
    single, Attestation, AttestationId, Credential, Persist, PinRecord, StorageError, Update,
};
use opensk::secret::Secret;
use opensk::status::CtapError;

fn attestation(key: u8, certificate: u8) -> Attestation {
    Attestation {
        private_key: Secret::from_exposed_secret(vec![key; 32]),
        certificate: vec![certificate; 20],
    }
}

fn credential(id: u8, rp: u8) -> Credential {
    Credential {
        id: vec![id; 4],
        rp_id: vec![rp; 3],
        user_handle: vec![id, rp],
        private_key: Secret::from_exposed_secret(vec![id; 32]),
    }
}

fn pin_record(retries: u8) -> PinRecord {
    PinRecord { hash: Secret::from_exposed_secret(vec![3; 16]), salt: vec![4; 8], retries }
}

fn ids(store: &MemoryStore) -> Vec<Vec<u8>> {
    let mut all = Vec::new();
    for index in 0..store.credential_count() {
        all.push(store.credential_at(index).id);
    }
    all
}

#[test]
fn bytes_equal_and_copy_bytes() {
    assert!(bytes_equal(&vec![1, 2, 3], &vec![1, 2, 3]));
    assert!(!bytes_equal(&vec![1, 2, 3], &vec![1, 2]));
    assert!(!bytes_equal(&vec![1, 2, 3], &vec![1, 2, 4]));
    assert!(bytes_equal(&Vec::new(), &Vec::new()));
    assert_eq!(copy_bytes(&vec![9, 8, 7]), vec![9, 8, 7]);
}

#[test]
fn new_store_is_empty() {
    let store = MemoryStore::new(3);
    assert_eq!(store.capacity(), 3);
    assert!(store.get_attestation(AttestationId::Batch).is_none());
    assert!(store.get_attestation(AttestationId::Enterprise).is_none());
    assert_eq!(store.credential_count(), 0);
    assert!(store.pin().is_none());
    assert!(!store.enterprise_attestation_enabled());
    assert!(!store.reset_in_progress());
}

#[test]
fn set_attestation_overwrites_and_erases() {
    let mut store = MemoryStore::new(3);
    let first = attestation(1, 2);
    assert!(set_attestation(&mut store, AttestationId::Batch, Some(&first)).is_ok());
    let read = store.get_attestation(AttestationId::Batch).unwrap();
    assert_eq!(read.private_key.expose(), &vec![1u8; 32]);
    assert_eq!(read.certificate, vec![2u8; 20]);
    assert!(store.get_attestation(AttestationId::Enterprise).is_none());
    let second = attestation(5, 6);
    assert!(set_attestation(&mut store, AttestationId::Batch, Some(&second)).is_ok());
    let read = store.get_attestation(AttestationId::Batch).unwrap();
    assert_eq!(read.private_key.expose(), &vec![5u8; 32]);
    assert_eq!(read.certificate, vec![6u8; 20]);
    assert!(set_attestation(&mut store, AttestationId::Batch, None).is_ok());
    assert!(store.get_attestation(AttestationId::Batch).is_none());
}

#[test]
fn set_attestation_reports_a_refused_write() {
    let mut store = MemoryStore::new(3);
    store.set_faulty(true);
    let outcome = set_attestation(&mut store, AttestationId::Enterprise, Some(&attestation(1, 2)));
    assert_eq!(outcome, Err(CtapError::StorageFailure));
    assert!(store.get_attestation(AttestationId::Enterprise).is_none());
}

#[test]
fn credentials_are_put_replaced_and_deleted() {
    let mut store = MemoryStore::new(5);
    assert!(store.commit(&single(Update::PutCredential(credential(1, 7)))).is_ok());
    assert!(store.commit(&single(Update::PutCredential(credential(2, 7)))).is_ok());
    assert!(store.commit(&single(Update::PutCredential(credential(3, 8)))).is_ok());
    assert_eq!(ids(&store), vec![vec![1u8; 4], vec![2u8; 4], vec![3u8; 4]]);
    // A credential of a stored identifier takes the place of the old one, at the end.
    assert!(store.commit(&single(Update::PutCredential(credential(1, 9)))).is_ok());
    assert_eq!(ids(&store), vec![vec![2u8; 4], vec![3u8; 4], vec![1u8; 4]]);
    assert_eq!(store.credential_at(2).rp_id, vec![9u8; 3]);
    assert!(store.commit(&single(Update::DeleteCredential(vec![3; 4]))).is_ok());
    assert_eq!(ids(&store), vec![vec![2u8; 4], vec![1u8; 4]]);
    // Deleting what is not there changes nothing.
    assert!(store.commit(&single(Update::DeleteCredential(vec![3; 4]))).is_ok());
    assert_eq!(ids(&store), vec![vec![2u8; 4], vec![1u8; 4]]);
}

#[test]
fn find_credential_looks_up_by_identifier() {
    let mut store = MemoryStore::new(5);
    assert!(find_credential(&store, &vec![1; 4]).is_none());
    assert!(store.commit(&single(Update::PutCredential(credential(1, 7)))).is_ok());
    assert!(store.commit(&single(Update::PutCredential(credential(2, 8)))).is_ok());
    let found = find_credential(&store, &vec![2; 4]).unwrap();
    assert_eq!(found.rp_id, vec![8u8; 3]);
    assert_eq!(found.user_handle, vec![2u8, 8]);
    assert_eq!(found.private_key.expose(), &vec![2u8; 32]);
    assert!(find_credential(&store, &vec![3; 4]).is_none());
}

#[test]
fn a_batch_is_applied_in_order() {
    let mut store = MemoryStore::new(5);
    let batch = vec![
        Update::SetPin(Some(pin_record(8))),
        Update::SetEnterpriseAttestation(true),
        Update::SetPin(Some(pin_record(5))),
        Update::PutCredential(credential(1, 1)),
        Update::DeleteCredential(vec![1; 4]),
    ];
    assert!(store.commit(&batch).is_ok());
    assert_eq!(store.pin().unwrap().retries, 5);
    assert!(store.enterprise_attestation_enabled());
    assert_eq!(store.credential_count(), 0);
}

#[test]
fn a_batch_over_capacity_is_refused_as_a_whole() {
    let mut store = MemoryStore::new(1);
    assert!(store.commit(&single(Update::PutCredential(credential(1, 1)))).is_ok());
    let batch = vec![Update::SetEnterpriseAttestation(true), Update::PutCredential(credential(2, 2))];
    assert_eq!(store.commit(&batch), Err(StorageError::Capacity));
    assert!(!store.enterprise_attestation_enabled());
    assert_eq!(ids(&store), vec![vec![1u8; 4]]);
    // Replacing the stored credential still fits.
    assert!(store.commit(&single(Update::PutCredential(credential(1, 3)))).is_ok());
    assert_eq!(store.credential_at(0).rp_id, vec![3u8; 3]);
}

#[test]
fn a_faulty_store_refuses_every_write() {
    let mut store = MemoryStore::new(1);
    store.set_faulty(true);
    assert_eq!(store.commit(&single(Update::SetEnterpriseAttestation(true))), Err(StorageError::Fault));
    assert!(!store.enterprise_attestation_enabled());
    store.set_faulty(false);
    assert!(store.commit(&single(Update::SetEnterpriseAttestation(true))).is_ok());
    assert!(store.enterprise_attestation_enabled());
}

fn prepared() -> MemoryStore {
    let mut store = MemoryStore::new(4);
    let batch = vec![
        Update::SetAttestation { id: AttestationId::Enterprise, attestation: Some(attestation(1, 1)) },
        Update::PutCredential(credential(1, 1)),
        Update::SetPin(Some(pin_record(8))),
    ];
    assert!(store.commit(&batch).is_ok());
    store
}

fn write() -> Vec<Update> {
    vec![
        Update::SetAttestation { id: AttestationId::Enterprise, attestation: Some(attestation(2, 2)) },
        Update::PutCredential(credential(2, 2)),
        Update::SetPin(Some(pin_record(3))),
        Update::SetEnterpriseAttestation(true),
        Update::SetResetInProgress(true),
    ]
}

fn holds_old(store: &MemoryStore) -> bool {
    store.get_attestation(AttestationId::Enterprise).unwrap().certificate == vec![1u8; 20]
        && ids(store) == vec![vec![1u8; 4]]
        && store.pin().unwrap().retries == 8
        && !store.enterprise_attestation_enabled()
        && !store.reset_in_progress()
}

fn holds_new(store: &MemoryStore) -> bool {
    store.get_attestation(AttestationId::Enterprise).unwrap().certificate == vec![2u8; 20]
        && ids(store) == vec![vec![1u8; 4], vec![2u8; 4]]
        && store.pin().unwrap().retries == 3
        && store.enterprise_attestation_enabled()
        && store.reset_in_progress()
}

#[test]
fn a_write_cut_short_before_the_flip_leaves_the_old_state() {
    for applied in 0..7 {
        let mut store = prepared();
        store.commit_interrupted(&write(), CrashPoint::Staging { applied });
        assert!(holds_old(&store));
        store.recover();
        assert!(holds_old(&store));
    }
    let mut store = prepared();
    store.commit_interrupted(&write(), CrashPoint::Staged);
    assert!(holds_old(&store));
    store.recover();
    assert!(holds_old(&store));
}

#[test]
fn a_write_cut_short_after_the_flip_leaves_the_new_state() {
    for copied in 0..8 {
        let mut store = prepared();
        store.commit_interrupted(&write(), CrashPoint::CopyingBack { copied });
        assert!(holds_new(&store));
        store.recover();
        assert!(holds_new(&store));
    }
    let mut store = prepared();
    store.commit_interrupted(&write(), CrashPoint::CopiedBack);
    assert!(holds_new(&store));
    store.recover();
    assert!(holds_new(&store));
}

#[test]
fn a_store_takes_writes_after_a_write_was_cut_short() {
    let mut store = prepared();
    store.commit_interrupted(&write(), CrashPoint::CopyingBack { copied: 2 });
    assert!(store.commit(&single(Update::SetResetInProgress(false))).is_ok());
    assert!(!store.reset_in_progress());
    assert_eq!(store.pin().unwrap().retries, 3);
    assert_eq!(ids(&store), vec![vec![1u8; 4], vec![2u8; 4]]);
    let mut store = prepared();
    store.commit_interrupted(&write(), CrashPoint::Staging { applied: 3 });
    assert!(store.commit(&single(Update::SetEnterpriseAttestation(true))).is_ok());
    assert!(store.enterprise_attestation_enabled());
    assert_eq!(store.pin().unwrap().retries, 8);
    assert_eq!(ids(&store), vec![vec![1u8; 4]]);
}

#[test]
fn a_refused_write_cut_short_leaves_the_old_state() {
    let mut store = prepared();
    store.set_faulty(true);
    store.commit_interrupted(&write(), CrashPoint::CopiedBack);
    assert!(holds_old(&store));
    let mut small = MemoryStore::new(1);
    assert!(small.commit(&single(Update::PutCredential(credential(1, 1)))).is_ok());
    small.commit_interrupted(&write(), CrashPoint::CopyingBack { copied: 6 });
    assert_eq!(ids(&small), vec![vec![1u8; 4]]);
    assert!(small.pin().is_none());
}

#[test]
fn factory_reset_erases_everything() {
    let mut store = prepared();
    assert!(store.commit(&write()).is_ok());
    assert!(store.commit(&single(Update::SetAttestation { id: AttestationId::Batch, attestation: Some(attestation(9, 9)) })).is_ok());
    assert_eq!(factory_reset(&mut store), Ok(()));
    assert!(store.get_attestation(AttestationId::Batch).is_none());
    assert!(store.get_attestation(AttestationId::Enterprise).is_none());
    assert_eq!(store.credential_count(), 0);
    assert!(store.pin().is_none());
    assert!(!store.enterprise_attestation_enabled());
    assert!(!store.reset_in_progress());
}

#[test]
fn factory_reset_on_a_faulty_store_changes_nothing() {
    let mut store = prepared();
    store.set_faulty(true);
    assert_eq!(factory_reset(&mut store), Err(CtapError::StorageFailure));
    assert!(holds_old(&store));
}

#[test]
fn a_fuse_lets_a_number_of_writes_through() {
    let mut store = MemoryStore::new(4);
    store.fail_after(2);
    assert!(store.commit(&single(Update::SetEnterpriseAttestation(true))).is_ok());
    assert!(store.commit(&single(Update::SetPin(Some(pin_record(8))))).is_ok());
    assert_eq!(store.commit(&single(Update::SetPin(None))), Err(StorageError::Fault));
    assert_eq!(store.commit(&single(Update::SetPin(None))), Err(StorageError::Fault));
    assert!(store.pin().is_some());
    assert!(store.enterprise_attestation_enabled());
    store.set_faulty(false);
    assert!(store.commit(&single(Update::SetPin(None))).is_ok());
    assert!(store.commit(&single(Update::SetEnterpriseAttestation(false))).is_ok());
    // A refused write does not use the fuse up.
    let mut small = MemoryStore::new(0);
    small.fail_after(1);
    assert_eq!(small.commit(&single(Update::PutCredential(credential(1, 1)))), Err(StorageError::Capacity));
    assert!(small.commit(&single(Update::SetEnterpriseAttestation(true))).is_ok());
    assert_eq!(small.commit(&single(Update::SetEnterpriseAttestation(false))), Err(StorageError::Fault));
    let mut none = MemoryStore::new(4);
    none.fail_after(0);
    assert_eq!(none.commit(&single(Update::SetEnterpriseAttestation(true))), Err(StorageError::Fault));
}

#[test]
fn the_closing_batch_erases_all_but_the_credentials() {
    let mut store = prepared();
    assert!(store.commit(&write()).is_ok());
    assert!(store.commit(&closing_batch()).is_ok());
    assert!(store.get_attestation(AttestationId::Batch).is_none());
    assert!(store.get_attestation(AttestationId::Enterprise).is_none());
    assert!(store.pin().is_none());
    assert!(!store.enterprise_attestation_enabled());
    assert!(!store.reset_in_progress());
    assert_eq!(ids(&store), vec![vec![1u8; 4], vec![2u8; 4]]);
}

fn full() -> MemoryStore {
    let mut store = prepared();
    assert!(store.commit(&single(Update::PutCredential(credential(2, 2)))).is_ok());
    assert!(store.commit(&single(Update::PutCredential(credential(3, 3)))).is_ok());
    assert!(store.commit(&single(Update::SetEnterpriseAttestation(true))).is_ok());
    store
}

fn holds_all_but_credentials(store: &MemoryStore) -> bool {
    store.get_attestation(AttestationId::Enterprise).unwrap().certificate == vec![1u8; 20]
        && store.pin().unwrap().retries == 8
        && store.enterprise_attestation_enabled()
}

#[test]
fn a_factory_reset_stops_at_the_first_refused_write() {
    // The marker is written, and the erasure of the last credential is refused.
    let mut store = full();
    store.fail_after(1);
    assert_eq!(factory_reset(&mut store), Err(CtapError::StorageFailure));
    assert!(store.reset_in_progress());
    assert_eq!(ids(&store), vec![vec![1u8; 4], vec![2u8; 4], vec![3u8; 4]]);
    assert!(holds_all_but_credentials(&store));
    // The credentials go one by one, the last one first.
    let mut store = full();
    store.fail_after(2);
    assert_eq!(factory_reset(&mut store), Err(CtapError::StorageFailure));
    assert!(store.reset_in_progress());
    assert_eq!(ids(&store), vec![vec![1u8; 4], vec![2u8; 4]]);
    assert!(holds_all_but_credentials(&store));
    let mut store = full();
    store.fail_after(3);
    assert_eq!(factory_reset(&mut store), Err(CtapError::StorageFailure));
    assert_eq!(ids(&store), vec![vec![1u8; 4]]);
    // The closing write is refused: the credentials are gone, the rest is there.
    let mut store = full();
    store.fail_after(4);
    assert_eq!(factory_reset(&mut store), Err(CtapError::StorageFailure));
    assert!(store.reset_in_progress());
    assert_eq!(store.credential_count(), 0);
    assert!(holds_all_but_credentials(&store));
    // Every write is taken.
    let mut store = full();
    store.fail_after(5);
    assert_eq!(factory_reset(&mut store), Ok(()));
    assert_eq!(store.credential_count(), 0);
    assert!(store.pin().is_none());
    assert!(store.get_attestation(AttestationId::Enterprise).is_none());
    assert!(!store.enterprise_attestation_enabled());
    assert!(!store.reset_in_progress());
}

#[test]
fn a_stopped_factory_reset_is_taken_up_again() {
    let mut store = full();
    store.fail_after(2);
    assert_eq!(factory_reset(&mut store), Err(CtapError::StorageFailure));
    assert!(store.reset_in_progress());
    store.set_faulty(false);
    assert_eq!(factory_reset(&mut store), Ok(()));
    assert_eq!(store.credential_count(), 0);
    assert!(store.pin().is_none());
    assert!(store.get_attestation(AttestationId::Enterprise).is_none());
    assert!(!store.enterprise_attestation_enabled());
    assert!(!store.reset_in_progress());
}
