use vstd::prelude::*;
use crate::engine::{create_blob_v3, engine_message, v3_commitment};
use crate::error::NormalizeError;
use crate::namespace::{resolve_namespace, resolved_namespace};

verus! {

/// The fields of a blob as the engine built it.
pub struct EngineBlob {
    pub namespace: Vec<u8>,
    pub data: Vec<u8>,
    pub commitment: Vec<u8>,
    pub share_version: u8,
    pub index: Option<u64>,
}

/// A normalized blob: what the engine built, with the share version and the
/// signer that the caller's signer decides. `signer` is present exactly when
/// a signer was given.
pub struct BlobRecord {
    pub data: Vec<u8>,
    pub namespace: Vec<u8>,
    pub commitment: Vec<u8>,
    pub share_version: u8,
    pub index: Option<u64>,
    pub signer: Option<Vec<u8>>,
}

/// The bytes of an optional byte vector.
pub open spec fn opt_bytes(o: Option<Vec<u8>>) -> Option<Seq<u8>> {
    match o {
        Some(v) => Some(v@),
        None => None,
    }
}

/// The share version of a blob: 1 when a signer is given, else what the
/// engine determined.
pub open spec fn resolved_share_version(engine_version: u8, signer: Option<Seq<u8>>) -> u8 {
    if signer is Some { 1 } else { engine_version }
}

/// `rec` is the record that `blob` and `signer` assemble into.
pub open spec fn assembled_from(rec: BlobRecord, blob: EngineBlob, signer: Option<Seq<u8>>) -> bool {
    &&& rec.data@ == blob.data@
    &&& rec.namespace@ == blob.namespace@
    &&& rec.commitment@ == blob.commitment@
    &&& rec.share_version == resolved_share_version(blob.share_version, signer)
    &&& rec.index == blob.index
    &&& opt_bytes(rec.signer) == signer
}

/// `rec` is a record built from the resolved namespace `ns`, `data` and
/// `signer`: the engine's commitment for them, share version 1 exactly when
/// a signer was given, no index, and the signer's bytes unchanged.
pub open spec fn blob_built(ns: Seq<u8>, data: Seq<u8>, signer: Option<Seq<u8>>, rec: BlobRecord) -> bool {
    &&& v3_commitment(ns, data) is Some
    &&& rec.namespace@ == ns
    &&& rec.data@ == data
    &&& rec.commitment@ == v3_commitment(ns, data)->Some_0
    &&& rec.commitment@.len() == 32
    &&& rec.share_version == (if signer is Some { 1u8 } else { 0u8 })
    &&& rec.index is None
    &&& opt_bytes(rec.signer) == signer
}

/// Assembles the record of a blob that the engine built: the share version
/// is forced to 1 where a signer is given, and the signer is attached as is.
pub fn assemble_record(blob: EngineBlob, signer: Option<Vec<u8>>) -> (r: BlobRecord)
    ensures
        assembled_from(r, blob, opt_bytes(signer)),
{
    let share_version: u8 = if signer.is_some() { 1 } else { blob.share_version };
    BlobRecord {
        data: blob.data,
        namespace: blob.namespace,
        commitment: blob.commitment,
        share_version,
        index: blob.index,
        signer,
    }
}

/// Builds a blob of `data` under `namespace`, with an optional signer.
///
/// The namespace is resolved as `resolve_namespace` does (`WrongNamespace`
/// where it cannot be). The engine then builds a share-version-0 blob at app
/// version 3; where it cannot, the result is `CannotCreateBlob` with the
/// engine's message. The signer does not enter the commitment: it only
/// forces the share version to 1 and is attached to the record.
pub fn normalize_blob(namespace: &[u8], data: Vec<u8>, signer: Option<Vec<u8>>) -> (r: Result<
    BlobRecord,
    NormalizeError,
>)
    ensures
        resolved_namespace(namespace@) is None ==> r == Err::<BlobRecord, NormalizeError>(
            NormalizeError::WrongNamespace,
        ),
        resolved_namespace(namespace@) is Some ==> {
            let ns = resolved_namespace(namespace@)->Some_0;
            &&& (r is Ok <==> v3_commitment(ns, data@) is Some)
            &&& (r is Ok ==> blob_built(ns, data@, opt_bytes(signer), r->Ok_0))
            &&& (r is Err ==> r->Err_0 is CannotCreateBlob)
        },
{
    let ns = match resolve_namespace(namespace) {
        Ok(ns) => ns,
        Err(e) => return Err(e),
    };
    match create_blob_v3(&ns, data) {
        Ok(blob) => Ok(assemble_record(blob, signer)),
        Err(e) => Err(NormalizeError::CannotCreateBlob(engine_message(&e))),
    }
}

/// Two blobs built from the same namespace and data, without a signer, carry
/// the same commitment.
pub proof fn lemma_commitment_stable(ns: Seq<u8>, data: Seq<u8>, r1: BlobRecord, r2: BlobRecord)
    requires
        blob_built(ns, data, None, r1),
        blob_built(ns, data, None, r2),
    ensures
        r1.commitment@ == r2.commitment@,
{
}

/// A blob built without a signer has share version 0; one built with a
/// signer has share version 1.
pub proof fn lemma_share_version(ns: Seq<u8>, data: Seq<u8>, signer: Option<Seq<u8>>, r: BlobRecord)
    requires
        blob_built(ns, data, signer, r),
    ensures
        signer is None ==> r.share_version == 0,
        signer is Some ==> r.share_version == 1,
{
}

/// A built blob carries a signer exactly when one was given, with the given
/// bytes unchanged.
pub proof fn lemma_signer_presence(ns: Seq<u8>, data: Seq<u8>, signer: Option<Seq<u8>>, r: BlobRecord)
    requires
        blob_built(ns, data, signer, r),
    ensures
        r.signer is Some <==> signer is Some,
        signer is Some ==> r.signer->Some_0@ == signer->Some_0,
{
}

} // verus!
