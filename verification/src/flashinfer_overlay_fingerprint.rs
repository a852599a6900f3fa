//! The compiler argument that ties compiled CUDA objects to the applied overlay.

use crate::text::{digit, digit_str, lemma_digit_injective};
use vstd::prelude::*;
use vstd::string::*;

verus! {

/// The SHA-256 digest of some bytes.
pub uninterp spec fn sha256(content: Seq<u8>) -> Seq<u8>;

/// Calls `sha2::Sha256::digest`: the 32 bytes of the SHA-256 digest of the content.
#[verifier::external_body]
fn sha256_digest(content: &[u8]) -> (digest: Vec<u8>)
    ensures
        digest@ == sha256(content@),
        digest@.len() == 32,
{
    <sha2::Sha256 as sha2::Digest>::digest(content).to_vec()
}

/// Two lower-case hexadecimal digits for each byte, the high half first.
pub open spec fn hex(bytes: Seq<u8>) -> Seq<char>
    decreases bytes.len(),
{
    if bytes.len() == 0 {
        Seq::empty()
    } else {
        hex(bytes.drop_last()) + seq![
            digit(bytes.last() as int / 16),
            digit(bytes.last() as int % 16),
        ]
    }
}

/// The compiler argument for a digest.
pub open spec fn argument(digest: Seq<u8>) -> Seq<char> {
    "-DATTENTION_RS_FLASHINFER_OVERLAY_FINGERPRINT="@ + hex(digest)
}

/// The compiler argument for a digest.
pub fn fingerprint_arg(digest: &[u8]) -> (arg: String)
    ensures
        arg@ == argument(digest@),
{
    let mut arg = "-DATTENTION_RS_FLASHINFER_OVERLAY_FINGERPRINT=".to_owned();
    let mut i: usize = 0;
    assert(hex(digest@.take(0)) =~= Seq::<char>::empty());
    while i < digest.len()
        invariant
            i <= digest@.len(),
            arg@ == argument(digest@.take(i as int)),
        decreases digest@.len() - i,
    {
        let byte: u8 = digest[i];
        arg.append(digit_str(byte / 16));
        arg.append(digit_str(byte % 16));
        assert(digest@.take(i + 1).drop_last() =~= digest@.take(i as int));
        assert(arg@ =~= argument(digest@.take(i + 1)));
        i = i + 1;
    }
    assert(digest@.take(digest@.len() as int) =~= digest@);
    arg
}

/// The compiler argument whose value is part of every CUDA object's argument fingerprint,
/// for the content of the applied overlay: the flag and 64 hexadecimal digits.
pub fn cuda_object_fingerprint_arg(applied_overlay: &[u8]) -> (arg: String)
    ensures
        arg@ == argument(sha256(applied_overlay@)),
        hex(sha256(applied_overlay@)).len() == 64,
{
    let digest = sha256_digest(applied_overlay);
    proof {
        lemma_hex_len(digest@);
    }
    fingerprint_arg(digest.as_slice())
}

proof fn lemma_hex_len(bytes: Seq<u8>)
    ensures
        hex(bytes).len() == 2 * bytes.len(),
    decreases bytes.len(),
{
    if bytes.len() > 0 {
        lemma_hex_len(bytes.drop_last());
    }
}

proof fn lemma_hex_injective(lhs: Seq<u8>, rhs: Seq<u8>)
    requires
        hex(lhs) == hex(rhs),
    ensures
        lhs == rhs,
    decreases lhs.len(),
{
    lemma_hex_len(lhs);
    lemma_hex_len(rhs);
    if lhs.len() > 0 {
        lemma_hex_len(lhs.drop_last());
        lemma_hex_len(rhs.drop_last());
        let n = hex(lhs).len() as int;
        assert(hex(lhs)[n - 2] == digit(lhs.last() as int / 16));
        assert(hex(lhs)[n - 1] == digit(lhs.last() as int % 16));
        assert(hex(rhs)[n - 2] == digit(rhs.last() as int / 16));
        assert(hex(rhs)[n - 1] == digit(rhs.last() as int % 16));
        assert(hex(lhs).take(n - 2) =~= hex(lhs.drop_last()));
        assert(hex(rhs).take(n - 2) =~= hex(rhs.drop_last()));
        lemma_hex_injective(lhs.drop_last(), rhs.drop_last());
        lemma_digit_injective(lhs.last() as int / 16, rhs.last() as int / 16);
        lemma_digit_injective(lhs.last() as int % 16, rhs.last() as int % 16);
        assert(lhs =~= lhs.drop_last().push(lhs.last()));
        assert(rhs =~= rhs.drop_last().push(rhs.last()));
    } else {
        assert(lhs =~= rhs);
    }
}

/// Two digests give the same argument only where they are the same digest.
pub proof fn law_arguments_tell_digests_apart(lhs: Seq<u8>, rhs: Seq<u8>)
    ensures
        argument(lhs) == argument(rhs) <==> lhs == rhs,
{
    if argument(lhs) == argument(rhs) {
        let flag = "-DATTENTION_RS_FLASHINFER_OVERLAY_FINGERPRINT="@;
        assert(argument(lhs).skip(flag.len() as int) =~= hex(lhs));
        assert(argument(rhs).skip(flag.len() as int) =~= hex(rhs));
        lemma_hex_injective(lhs, rhs);
    }
}

/// The same overlay content always gives the same argument, and content with another
/// digest gives another one, so that it invalidates the compiled objects.
pub proof fn law_changed_content_changes_the_argument(before: Seq<u8>, after: Seq<u8>)
    ensures
        before == after ==> argument(sha256(before)) == argument(sha256(after)),
        sha256(before) != sha256(after) ==> argument(sha256(before)) != argument(sha256(after)),
{
    law_arguments_tell_digests_apart(sha256(before), sha256(after));
}

/// The number that a lower-case hexadecimal digit stands for.
pub open spec fn read_digit(digit: char) -> int {
    if '0' as int <= digit as int <= '9' as int {
        digit as int - '0' as int
    } else {
        digit as int - 'a' as int + 10
    }
}

/// The argument is the flag, and behind it each byte of the digest in order, in two
/// lower-case hexadecimal digits that read back as the byte.
pub proof fn law_the_argument_reads_back_as_the_digest(digest: Seq<u8>, i: int)
    requires
        0 <= i < digest.len(),
    ensures
        ({
            let flag = "-DATTENTION_RS_FLASHINFER_OVERLAY_FINGERPRINT="@;
            let high = argument(digest)[flag.len() + 2 * i];
            let low = argument(digest)[flag.len() + 2 * i + 1];
            &&& argument(digest).len() == flag.len() + 2 * digest.len()
            &&& argument(digest).take(flag.len() as int) == flag
            &&& read_digit(high) * 16 + read_digit(low) == digest[i]
            &&& '0' as int <= high as int <= '9' as int || 'a' as int <= high as int <= 'f' as int
            &&& '0' as int <= low as int <= '9' as int || 'a' as int <= low as int <= 'f' as int
        }),
    decreases digest.len(),
{
    let flag = "-DATTENTION_RS_FLASHINFER_OVERLAY_FINGERPRINT="@;
    lemma_hex_len(digest);
    lemma_hex_len(digest.drop_last());
    assert(argument(digest).take(flag.len() as int) =~= flag);
    let n = flag.len() as int;
    if i < digest.len() - 1 {
        law_the_argument_reads_back_as_the_digest(digest.drop_last(), i);
        assert(argument(digest)[n + 2 * i] == argument(digest.drop_last())[n + 2 * i]);
        assert(argument(digest)[n + 2 * i + 1] == argument(digest.drop_last())[n + 2 * i + 1]);
    } else {
        assert(argument(digest)[n + 2 * i] == digit(digest.last() as int / 16));
        assert(argument(digest)[n + 2 * i + 1] == digit(digest.last() as int % 16));
    }
}

} // verus!
