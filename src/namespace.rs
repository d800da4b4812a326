use vstd::prelude::*;
use crate::engine::{namespace_raw_bytes, namespace_v0_bytes};
use crate::error::NormalizeError;

verus! {

/// Number of bytes of the id part of a namespace.
pub const NS_ID_SIZE: usize = 28;

/// Number of bytes of a complete namespace: version and id.
pub const NS_SIZE: usize = 29;

/// Number of user-defined bytes at the end of a version-0 id.
pub const NS_ID_V0_SIZE: usize = 10;

/// Number of zero bytes that must open a full version-0 id.
pub const NS_ID_V0_PREFIX: usize = 18;

/// A sequence of `n` zero bytes.
pub open spec fn zeros(n: nat) -> Seq<u8> {
    Seq::new(n, |i: int| 0u8)
}

/// The bytes of `s` in `[lo, hi)` all equal `b`.
pub open spec fn all_equal(s: Seq<u8>, lo: int, hi: int, b: u8) -> bool {
    forall|i: int| lo <= i < hi ==> #[trigger] s[i] == b
}

/// A version-0 id is accepted when it is a full 28-byte id whose first
/// 18 bytes are zero, or a user suffix of at most 10 bytes.
pub open spec fn v0_id_accepted(id: Seq<u8>) -> bool {
    (id.len() == NS_ID_SIZE && all_equal(id, 0, NS_ID_V0_PREFIX as int, 0))
        || id.len() <= NS_ID_V0_SIZE
}

/// The version-0 namespace built from `id`: the id right-aligned in a
/// zero-filled `NS_SIZE`-byte sequence, whose first byte (the version) is 0.
pub open spec fn v0_namespace(id: Seq<u8>) -> Option<Seq<u8>> {
    if v0_id_accepted(id) {
        Some(zeros((NS_SIZE - id.len()) as nat) + id)
    } else {
        None
    }
}

/// A raw `NS_SIZE`-byte namespace is well formed when it is a version-0
/// namespace (version 0, then 18 zero bytes) or a version-255 namespace
/// (version 255, then 27 bytes of `0xff`).
pub open spec fn raw_namespace_valid(b: Seq<u8>) -> bool {
    b.len() == NS_SIZE && (
        (b[0] == 0u8 && all_equal(b, 1, 1 + NS_ID_V0_PREFIX, 0))
        || (b[0] == 255u8 && all_equal(b, 1, NS_SIZE - 1, 255))
    )
}

/// The namespace that `raw` stands for, where it stands for one: a raw
/// namespace when it has `NS_SIZE` bytes, else a version-0 id.
pub open spec fn resolved_namespace(raw: Seq<u8>) -> Option<Seq<u8>> {
    if raw.len() == NS_SIZE {
        if raw_namespace_valid(raw) { Some(raw) } else { None }
    } else {
        v0_namespace(raw)
    }
}

/// What `normalize_namespace` returns on `raw`: the input itself when it has
/// `NS_SIZE` bytes, else the version-0 namespace of it.
pub open spec fn normalized_namespace(raw: Seq<u8>) -> Option<Seq<u8>> {
    if raw.len() == NS_SIZE {
        Some(raw)
    } else {
        v0_namespace(raw)
    }
}

/// Every version-0 namespace is `NS_SIZE` bytes long.
pub proof fn lemma_v0_namespace_len(id: Seq<u8>)
    requires
        v0_namespace(id) is Some,
    ensures
        v0_namespace(id)->Some_0.len() == NS_SIZE,
{
}

/// Every version-0 namespace is a well-formed raw namespace.
pub proof fn lemma_v0_namespace_is_raw(id: Seq<u8>)
    requires
        v0_namespace(id) is Some,
    ensures
        raw_namespace_valid(v0_namespace(id)->Some_0),
{
    let ns = v0_namespace(id)->Some_0;
    let pad = (NS_SIZE - id.len()) as nat;
    assert(ns[0] == 0u8);
    assert forall|i: int| 1 <= i < 1 + NS_ID_V0_PREFIX implies #[trigger] ns[i] == 0u8 by {
        if i >= pad {
            assert(id.len() == NS_ID_SIZE);
            assert(ns[i] == id[i - pad]);
        }
    }
}

/// Inputs of exactly `NS_SIZE` bytes are returned unchanged.
pub proof fn lemma_normalize_full_size_unchanged(b: Seq<u8>)
    requires
        b.len() == NS_SIZE,
    ensures
        normalized_namespace(b) == Some(b),
{
}

/// Shorter inputs that the engine accepts come back `NS_SIZE` bytes long.
pub proof fn lemma_normalize_short_padded(b: Seq<u8>)
    requires
        b.len() < NS_SIZE,
        normalized_namespace(b) is Some,
    ensures
        normalized_namespace(b)->Some_0.len() == NS_SIZE,
{
    lemma_v0_namespace_len(b);
}

/// Inputs longer than `NS_SIZE` bytes, and inputs the engine cannot pad,
/// are rejected.
pub proof fn lemma_normalize_rejects(b: Seq<u8>)
    requires
        b.len() > NS_SIZE || (b.len() != NS_SIZE && !v0_id_accepted(b)),
    ensures
        normalized_namespace(b) is None,
{
}

/// Normalizes a namespace: an input of `NS_SIZE` bytes is returned as it is;
/// any other input is taken as a version-0 id and padded by the engine.
/// Fails with `WrongNamespace` where the engine refuses the id.
pub fn normalize_namespace(namespace: &[u8]) -> (r: Result<Vec<u8>, NormalizeError>)
    ensures
        normalized_namespace(namespace@) is Some ==> r is Ok
            && r->Ok_0@ == normalized_namespace(namespace@)->Some_0,
        normalized_namespace(namespace@) is None ==> r == Err::<Vec<u8>, NormalizeError>(
            NormalizeError::WrongNamespace,
        ),
        namespace@.len() == NS_SIZE ==> r is Ok && r->Ok_0@ == namespace@,
        r is Ok ==> r->Ok_0@.len() == NS_SIZE,
        namespace@.len() > NS_SIZE ==> r is Err,
{
    if namespace.len() == NS_SIZE {
        Ok(vstd::slice::slice_to_vec(namespace))
    } else {
        match namespace_v0_bytes(namespace) {
            Ok(bytes) => {
                proof {
                    lemma_v0_namespace_len(namespace@);
                }
                Ok(bytes)
            },
            Err(_) => Err(NormalizeError::WrongNamespace),
        }
    }
}

/// Resolves the namespace of a blob: an input of `NS_SIZE` bytes must be a
/// well-formed raw namespace; any other input is taken as a version-0 id.
/// Fails with `WrongNamespace` where the engine refuses either.
pub fn resolve_namespace(namespace: &[u8]) -> (r: Result<Vec<u8>, NormalizeError>)
    ensures
        resolved_namespace(namespace@) is Some ==> r is Ok
            && r->Ok_0@ == resolved_namespace(namespace@)->Some_0,
        resolved_namespace(namespace@) is None ==> r == Err::<Vec<u8>, NormalizeError>(
            NormalizeError::WrongNamespace,
        ),
        r is Ok ==> raw_namespace_valid(r->Ok_0@),
{
    let resolved = if namespace.len() == NS_SIZE {
        namespace_raw_bytes(namespace)
    } else {
        let v0 = namespace_v0_bytes(namespace);
        proof {
            if v0 is Ok {
                lemma_v0_namespace_is_raw(namespace@);
            }
        }
        v0
    };
    match resolved {
        Ok(bytes) => Ok(bytes),
        Err(_) => Err(NormalizeError::WrongNamespace),
    }
}

} // verus!
