//! Canonical encoding of an attestation: the exact bytes the signing key
//! signs and a verifier re-derives.
//!
//! Layout, fixed and unambiguous: one intent-scope tag byte, then the
//! timestamp, the accuracy metric and the loss metric, each as eight
//! little-endian bytes. The encoding is proved injective: two distinct
//! attestations never share canonical bytes, so a signature over one can
//! never pass verification against another.

use vstd::prelude::*;
use crate::types::Attestation;
use crate::types::IntentScope;

verus! {

/// The tag byte of an intent scope.
pub open spec fn scope_byte(scope: IntentScope) -> u8 {
    match scope {
        IntentScope::ProcessData => 0,
    }
}

/// The eight little-endian bytes of a 64-bit value.
pub open spec fn u64_le(v: u64) -> Seq<u8> {
    seq![
        (v & 0xff) as u8,
        ((v >> 8) & 0xff) as u8,
        ((v >> 16) & 0xff) as u8,
        ((v >> 24) & 0xff) as u8,
        ((v >> 32) & 0xff) as u8,
        ((v >> 40) & 0xff) as u8,
        ((v >> 48) & 0xff) as u8,
        ((v >> 56) & 0xff) as u8,
    ]
}

/// The canonical encoding of an attestation: scope tag, timestamp,
/// accuracy, loss.
pub open spec fn spec_canonical(att: Attestation) -> Seq<u8> {
    seq![scope_byte(att.intent_scope)] + u64_le(att.timestamp_ms) + u64_le(att.result.accuracy)
        + u64_le(att.result.loss)
}

proof fn lemma_u64_le_injective(x: u64, y: u64)
    requires
        u64_le(x) == u64_le(y),
    ensures
        x == y,
{
    assert(u64_le(x)[0] == u64_le(y)[0]);
    assert(u64_le(x)[1] == u64_le(y)[1]);
    assert(u64_le(x)[2] == u64_le(y)[2]);
    assert(u64_le(x)[3] == u64_le(y)[3]);
    assert(u64_le(x)[4] == u64_le(y)[4]);
    assert(u64_le(x)[5] == u64_le(y)[5]);
    assert(u64_le(x)[6] == u64_le(y)[6]);
    assert(u64_le(x)[7] == u64_le(y)[7]);
    assert(x == y) by (bit_vector)
        requires
            (x & 0xff) as u8 == (y & 0xff) as u8,
            ((x >> 8) & 0xff) as u8 == ((y >> 8) & 0xff) as u8,
            ((x >> 16) & 0xff) as u8 == ((y >> 16) & 0xff) as u8,
            ((x >> 24) & 0xff) as u8 == ((y >> 24) & 0xff) as u8,
            ((x >> 32) & 0xff) as u8 == ((y >> 32) & 0xff) as u8,
            ((x >> 40) & 0xff) as u8 == ((y >> 40) & 0xff) as u8,
            ((x >> 48) & 0xff) as u8 == ((y >> 48) & 0xff) as u8,
            ((x >> 56) & 0xff) as u8 == ((y >> 56) & 0xff) as u8,
    ;
}

/// The canonical encoding is injective: attestations that differ anywhere
/// — result, timestamp or intent scope — have different canonical bytes,
/// so a signature bound to one can never verify against another.
pub proof fn lemma_canonical_injective(a1: Attestation, a2: Attestation)
    requires
        spec_canonical(a1) == spec_canonical(a2),
    ensures
        a1 == a2,
{
    let s1 = spec_canonical(a1);
    let s2 = spec_canonical(a2);
    assert forall|k: int| 0 <= k < 8 implies u64_le(a1.timestamp_ms)[k] == u64_le(
        a2.timestamp_ms,
    )[k] by {
        assert(s1[1 + k] == s2[1 + k]);
    }
    assert(u64_le(a1.timestamp_ms) =~= u64_le(a2.timestamp_ms));
    assert forall|k: int| 0 <= k < 8 implies u64_le(a1.result.accuracy)[k] == u64_le(
        a2.result.accuracy,
    )[k] by {
        assert(s1[9 + k] == s2[9 + k]);
    }
    assert(u64_le(a1.result.accuracy) =~= u64_le(a2.result.accuracy));
    assert forall|k: int| 0 <= k < 8 implies u64_le(a1.result.loss)[k] == u64_le(
        a2.result.loss,
    )[k] by {
        assert(s1[17 + k] == s2[17 + k]);
    }
    assert(u64_le(a1.result.loss) =~= u64_le(a2.result.loss));
    lemma_u64_le_injective(a1.timestamp_ms, a2.timestamp_ms);
    lemma_u64_le_injective(a1.result.accuracy, a2.result.accuracy);
    lemma_u64_le_injective(a1.result.loss, a2.result.loss);
}

/// The tag byte of an intent scope, mirroring `scope_byte`.
pub fn scope_tag(scope: IntentScope) -> (r: u8)
    ensures
        r == scope_byte(scope),
{
    match scope {
        IntentScope::ProcessData => 0,
    }
}

fn push_u64_le(out: &mut Vec<u8>, v: u64)
    ensures
        final(out)@ == old(out)@ + u64_le(v),
{
    proof {
        assert((v & 0xff) < 256 && ((v >> 8) & 0xff) < 256 && ((v >> 16) & 0xff) < 256 && ((v
            >> 24) & 0xff) < 256 && ((v >> 32) & 0xff) < 256 && ((v >> 40) & 0xff) < 256 && ((v
            >> 48) & 0xff) < 256 && ((v >> 56) & 0xff) < 256) by (bit_vector);
    }
    out.push((v & 0xff) as u8);
    out.push(((v >> 8) & 0xff) as u8);
    out.push(((v >> 16) & 0xff) as u8);
    out.push(((v >> 24) & 0xff) as u8);
    out.push(((v >> 32) & 0xff) as u8);
    out.push(((v >> 40) & 0xff) as u8);
    out.push(((v >> 48) & 0xff) as u8);
    out.push(((v >> 56) & 0xff) as u8);
    assert(out@ =~= old(out)@ + u64_le(v));
}

/// Builds the canonical bytes of `att`: exactly `spec_canonical(att)`.
pub fn canonical_message(att: &Attestation) -> (r: Vec<u8>)
    ensures
        r@ == spec_canonical(*att),
{
    let mut out: Vec<u8> = Vec::new();
    out.push(scope_tag(att.intent_scope));
    push_u64_le(&mut out, att.timestamp_ms);
    push_u64_le(&mut out, att.result.accuracy);
    push_u64_le(&mut out, att.result.loss);
    assert(out@ =~= spec_canonical(*att));
    out
}

} // verus!
