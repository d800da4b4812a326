use vstd::prelude::*;
use celestia_types::nmt::Namespace;
use celestia_types::{AppVersion, Blob};
use crate::blob::EngineBlob;
use crate::namespace::{v0_namespace, raw_namespace_valid};

verus! {

#[verifier::external_type_specification]
#[verifier::external_body]
pub struct ExCelestiaError(celestia_types::Error);

/// Relies on `Namespace::new_v0` of celestia-types: an id of 28 bytes with
/// 18 leading zero bytes, or of at most 10 bytes, is right-aligned in a
/// zero-filled namespace; any other id is refused.
#[verifier::external_body]
pub(crate) fn namespace_v0_bytes(id: &[u8]) -> (r: Result<Vec<u8>, celestia_types::Error>)
    ensures
        r is Ok <==> v0_namespace(id@) is Some,
        r is Ok ==> r->Ok_0@ == v0_namespace(id@)->Some_0,
{
    match Namespace::new_v0(id) {
        Ok(ns) => Ok(ns.as_bytes().to_vec()),
        Err(e) => Err(e),
    }
}

/// Relies on `Namespace::from_raw` of celestia-types: a well-formed raw
/// namespace of version 0 or 255 is accepted and keeps its bytes; any other
/// byte sequence is refused.
#[verifier::external_body]
pub(crate) fn namespace_raw_bytes(raw: &[u8]) -> (r: Result<Vec<u8>, celestia_types::Error>)
    ensures
        r is Ok <==> raw_namespace_valid(raw@),
        r is Ok ==> r->Ok_0@ == raw@,
{
    match Namespace::from_raw(raw) {
        Ok(ns) => Ok(ns.as_bytes().to_vec()),
        Err(e) => Err(e),
    }
}

/// The commitment that the engine computes for a share-version-0 blob of
/// `data` under the raw namespace `namespace` at app version 3, or `None`
/// where the engine cannot build such a blob.
pub uninterp spec fn v3_commitment(namespace: Seq<u8>, data: Seq<u8>) -> Option<Seq<u8>>;

/// Relies on `Namespace::from_raw` (to hold the already validated bytes as a
/// `Namespace`) and on `Blob::new` of celestia-types at `AppVersion::V3`:
/// the blob keeps the namespace and the data, has share version 0 and no
/// index, and carries the 32-byte hash of its commitment, which depends on
/// the namespace and the data alone.
#[verifier::external_body]
pub(crate) fn create_blob_v3(namespace: &[u8], data: Vec<u8>) -> (r: Result<
    EngineBlob,
    celestia_types::Error,
>)
    requires
        raw_namespace_valid(namespace@),
    ensures
        r is Ok <==> v3_commitment(namespace@, data@) is Some,
        r is Ok ==> r->Ok_0.namespace@ == namespace@ && r->Ok_0.data@ == data@
            && r->Ok_0.share_version == 0 && r->Ok_0.index is None,
        r is Ok ==> r->Ok_0.commitment@ == v3_commitment(namespace@, data@)->Some_0
            && r->Ok_0.commitment@.len() == 32,
{
    let ns = match Namespace::from_raw(namespace) {
        Ok(ns) => ns,
        Err(e) => return Err(e),
    };
    match Blob::new(ns, data, AppVersion::V3) {
        Ok(b) => Ok(EngineBlob {
            namespace: b.namespace.as_bytes().to_vec(),
            data: b.data,
            commitment: b.commitment.hash().to_vec(),
            share_version: b.share_version,
            index: b.index,
        }),
        Err(e) => Err(e),
    }
}

/// Relies on the `Display` impl of `celestia_types::Error` for a
/// human-readable message.
#[verifier::external_body]
pub(crate) fn engine_message(e: &celestia_types::Error) -> String {
    e.to_string()
}

} // verus!
