//! Bounded path encoding.
//!
//! The engine takes paths as zero-terminated byte buffers of fixed capacity.
//! The encoder copies at most `capacity - 1` bytes of the caller's text and
//! zero-fills the remainder, so the result is always in bounds and always
//! terminated; an oversized path is truncated rather than rejected, which is
//! the adapter's fixed policy.

use vstd::prelude::*;
use vstd::string::StringSliceAdditionalSpecFns;

verus! {

/// The byte buffer of length `cap` that encoding `path` produces: the first
/// `min(cap - 1, path.len())` bytes of `path`, then zeroes.
pub open spec fn spec_encoded_path(path: Seq<u8>, cap: nat) -> Seq<u8> {
    Seq::new(
        cap,
        |i: int|
            if i < path.len() && i < cap - 1 {
                path[i]
            } else {
                0u8
            },
    )
}

/// Encode a path into a zero-terminated buffer of exactly `cap` bytes,
/// truncating the text to `cap - 1` bytes where it is longer.
pub fn encode_path(path: &str, cap: usize) -> (r: Vec<u8>)
    requires
        1 <= cap,
    ensures
        r@ == spec_encoded_path(path.spec_bytes(), cap as nat),
{
    let bytes = path.as_bytes();
    let mut out: Vec<u8> = Vec::new();
    let mut i: usize = 0;
    while i < cap
        invariant
            i <= cap,
            1 <= cap,
            out@.len() == i,
            bytes@ == path.spec_bytes(),
            forall|j: int|
                0 <= j < i ==> out@[j] == spec_encoded_path(path.spec_bytes(), cap as nat)[j],
        decreases cap - i,
    {
        let b: u8 = if i + 1 < cap && i < bytes.len() {
            bytes[i]
        } else {
            0u8
        };
        out.push(b);
        i = i + 1;
    }
    proof {
        assert(out@ =~= spec_encoded_path(path.spec_bytes(), cap as nat));
    }
    out
}

/// Truncation is deterministic and in bounds: an encoded path is exactly
/// `cap` bytes long, carries the first `cap - 1` bytes of the text unchanged,
/// ends in a zero byte, and depends on nothing beyond those first `cap - 1`
/// bytes, so the same oversized path always encodes to the same buffer.
pub proof fn lemma_encode_path_truncates(path: Seq<u8>, cap: nat)
    requires
        1 <= cap,
        cap - 1 <= path.len(),
    ensures
        spec_encoded_path(path, cap).len() == cap,
        forall|i: int| 0 <= i < cap - 1 ==> spec_encoded_path(path, cap)[i] == path[i],
        spec_encoded_path(path, cap)[cap - 1] == 0u8,
        spec_encoded_path(path, cap) == spec_encoded_path(path.take(cap - 1), cap),
{
    assert(spec_encoded_path(path, cap) =~= spec_encoded_path(path.take(cap - 1), cap));
}

/// Length of a zero-terminated name held in a byte buffer: the number of
/// bytes before the first zero, or the whole buffer where no zero occurs.
pub open spec fn spec_strlen(bytes: Seq<u8>) -> nat
    decreases bytes.len(),
{
    if bytes.len() == 0 || bytes[0] == 0u8 {
        0
    } else {
        (1 + spec_strlen(bytes.skip(1))) as nat
    }
}

/// A position with no zero byte before it and a zero byte (or the buffer's
/// end) at it is the buffer's `spec_strlen`.
proof fn lemma_strlen_at(bytes: Seq<u8>, n: nat)
    requires
        n <= bytes.len(),
        forall|i: int| 0 <= i < n ==> bytes[i] != 0u8,
        n < bytes.len() ==> bytes[n as int] == 0u8,
    ensures
        spec_strlen(bytes) == n,
    decreases bytes.len(),
{
    if bytes.len() == 0 {
    } else if n == 0 {
    } else {
        assert(bytes[0] != 0u8);
        let rest = bytes.skip(1);
        assert(forall|i: int| 0 <= i < n - 1 ==> rest[i] == bytes[i + 1] && rest[i] != 0u8);
        lemma_strlen_at(rest, (n - 1) as nat);
    }
}

/// Scan a byte buffer for its terminating zero.
pub fn strlen(bytes: &[u8]) -> (r: usize)
    ensures
        r as nat == spec_strlen(bytes@),
{
    let n = bytes.len();
    let mut i: usize = 0;
    while i < n
        invariant
            i <= n,
            n == bytes@.len(),
            forall|j: int| 0 <= j < i ==> bytes@[j] != 0u8,
        decreases n - i,
    {
        if bytes[i] == 0u8 {
            proof {
                lemma_strlen_at(bytes@, i as nat);
            }
            return i;
        }
        i = i + 1;
    }
    proof {
        lemma_strlen_at(bytes@, i as nat);
    }
    i
}

} // verus!
