use pylestia_core::blob::{assemble_record, normalize_blob, EngineBlob};
use pylestia_core::error::NormalizeError;
use pylestia_core::namespace::{normalize_namespace, NS_SIZE};

fn ns_29_bytes() -> Vec<u8> {
    normalize_namespace(&[1, 2, 3, 4, 5]).unwrap()
}

#[test]
fn blob_without_signer() {
    let ns = ns_29_bytes();
    let rec = normalize_blob(&ns, b"payload".to_vec(), None).unwrap();
    assert_eq!(rec.share_version, 0);
    assert!(rec.signer.is_none());
    assert_eq!(rec.commitment.len(), 32);
    assert_eq!(rec.data, b"payload".to_vec());
    assert_eq!(rec.namespace, ns);
    assert_eq!(rec.index, None);
}

#[test]
fn blob_with_signer() {
    let ns = ns_29_bytes();
    let rec = normalize_blob(&ns, b"payload".to_vec(), Some(b"acct1".to_vec())).unwrap();
    assert_eq!(rec.share_version, 1);
    assert_eq!(rec.signer, Some(b"acct1".to_vec()));
    assert_eq!(rec.commitment.len(), 32);
}

#[test]
fn blob_commitment_is_stable() {
    let ns = ns_29_bytes();
    let a = normalize_blob(&ns, b"payload".to_vec(), None).unwrap();
    let b = normalize_blob(&ns, b"payload".to_vec(), None).unwrap();
    assert_eq!(a.commitment, b.commitment);
}

#[test]
fn signer_does_not_change_commitment() {
    let ns = ns_29_bytes();
    let a = normalize_blob(&ns, b"payload".to_vec(), None).unwrap();
    let b = normalize_blob(&ns, b"payload".to_vec(), Some(b"acct1".to_vec())).unwrap();
    assert_eq!(a.commitment, b.commitment);
}

#[test]
fn commitment_depends_on_data() {
    let ns = ns_29_bytes();
    let a = normalize_blob(&ns, b"payload".to_vec(), None).unwrap();
    let b = normalize_blob(&ns, b"other payload".to_vec(), None).unwrap();
    assert_ne!(a.commitment, b.commitment);
}

#[test]
fn blob_commitment_known_value() {
    let rec = normalize_blob(
        &[1, 2, 3, 4, 5],
        b"some data to store on blockchain".to_vec(),
        None,
    )
    .unwrap();
    let expected: Vec<u8> = vec![
        155, 64, 56, 125, 229, 58, 22, 167, 121, 103, 47, 109, 119, 115, 59, 150, 123, 70, 240,
        13, 207, 42, 167, 186, 97, 219, 160, 152, 11, 22, 207, 111,
    ];
    assert_eq!(rec.commitment, expected);
    let mut ns = vec![0u8; 24];
    ns.extend_from_slice(&[1, 2, 3, 4, 5]);
    assert_eq!(rec.namespace, ns);
}

#[test]
fn blob_short_namespace_is_padded() {
    let rec = normalize_blob(b"short", b"payload".to_vec(), None).unwrap();
    let mut expected = vec![0u8; 24];
    expected.extend_from_slice(b"short");
    assert_eq!(rec.namespace, expected);
}

#[test]
fn blob_malformed_raw_namespace_is_rejected() {
    let r = normalize_blob(&[7u8; NS_SIZE], b"payload".to_vec(), None);
    assert_eq!(r.err(), Some(NormalizeError::WrongNamespace));
}

#[test]
fn blob_oversized_namespace_is_rejected() {
    let r = normalize_blob(&[0u8; 40], b"payload".to_vec(), Some(b"acct1".to_vec()));
    assert_eq!(r.err(), Some(NormalizeError::WrongNamespace));
}

#[test]
fn assemble_forces_share_version_with_signer() {
    let blob = EngineBlob {
        namespace: vec![0u8; NS_SIZE],
        data: vec![1, 2],
        commitment: vec![9u8; 32],
        share_version: 0,
        index: Some(4),
    };
    let rec = assemble_record(blob, Some(vec![5, 6]));
    assert_eq!(rec.share_version, 1);
    assert_eq!(rec.signer, Some(vec![5, 6]));
    assert_eq!(rec.index, Some(4));
    assert_eq!(rec.commitment, vec![9u8; 32]);
    assert_eq!(rec.data, vec![1, 2]);
}

#[test]
fn assemble_keeps_engine_share_version_without_signer() {
    let blob = EngineBlob {
        namespace: vec![0u8; NS_SIZE],
        data: vec![],
        commitment: vec![1u8; 32],
        share_version: 0,
        index: None,
    };
    let rec = assemble_record(blob, None);
    assert_eq!(rec.share_version, 0);
    assert_eq!(rec.signer, None);
}

#[test]
fn engine_failure_is_not_a_validation_error() {
    assert!(!NormalizeError::CannotCreateBlob(String::from("x")).is_validation());
    assert!(NormalizeError::WrongBlobData.is_validation());
    assert!(NormalizeError::WrongSignerData.is_validation());
}
