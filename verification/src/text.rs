//! Decoding the interpreter's byte strings into host text.
use vstd::prelude::*;
use vstd::string::StringSliceAdditionalSpecFns;
use vstd::utf8::{partial_valid_partial_invalid_utf8, valid_first_scalar, valid_utf8};
use core::str::Utf8Error;

verus! {

/// `Utf8Error` of the standard library: why a byte string is not UTF-8.
#[verifier::external_type_specification]
#[verifier::external_body]
pub struct ExUtf8Error(Utf8Error);

/// What `Utf8Error::valid_up_to` returns for the error.
pub uninterp spec fn valid_prefix_len(e: Utf8Error) -> usize;

/// Whether `k` is where the valid text in `bytes` ends: the first `k` bytes
/// are UTF-8, and no longer prefix is.
pub open spec fn is_valid_up_to(bytes: Seq<u8>, k: int) -> bool {
    &&& 0 <= k <= bytes.len()
    &&& valid_utf8(bytes.subrange(0, k))
    &&& forall|j: int| k < j <= bytes.len() ==> !valid_utf8(#[trigger] bytes.subrange(0, j))
}

/// `core::str::from_utf8`. It returns the bytes as text exactly when they are
/// UTF-8. When they are not, the error's `valid_up_to` is the length of the
/// longest prefix that is.
pub assume_specification[ core::str::from_utf8 ](v: &[u8]) -> (r: Result<&str, Utf8Error>)
    ensures
        r is Ok <==> valid_utf8(v@),
        r matches Ok(s) ==> s.spec_bytes() == v@,
        r matches Err(e) ==> is_valid_up_to(v@, valid_prefix_len(e) as int),
;

/// `Utf8Error::valid_up_to`: the index up to which the input was valid.
pub assume_specification[ core::str::Utf8Error::valid_up_to ](e: &Utf8Error) -> (r: usize)
    ensures
        r == valid_prefix_len(*e),
;

/// Valid text that is followed by bytes with which no character begins ends
/// there: no longer prefix is valid.
pub proof fn lemma_valid_text_ends_where_no_char_begins(bytes: Seq<u8>, k: int)
    requires
        0 <= k < bytes.len(),
        valid_utf8(bytes.subrange(0, k)),
        !valid_first_scalar(bytes.subrange(k, bytes.len() as int)),
    ensures
        is_valid_up_to(bytes, k),
{
    let rest = bytes.subrange(k, bytes.len() as int);
    assert forall|j: int| k < j <= bytes.len() implies !valid_utf8(
        #[trigger] bytes.subrange(0, j),
    ) by {
        let head = bytes.subrange(0, j);
        let tail = head.subrange(k, j);
        assert(head.subrange(0, k) =~= bytes.subrange(0, k));
        assert(tail =~= rest.subrange(0, j - k));
        // a character that begins the shorter run of bytes begins the longer one
        assert(!valid_first_scalar(tail));
        assert(head.len() == j);
        partial_valid_partial_invalid_utf8(head, k);
    }
}

/// There is one place where the valid text in `bytes` ends.
pub proof fn lemma_valid_up_to_unique(bytes: Seq<u8>, k1: int, k2: int)
    requires
        is_valid_up_to(bytes, k1),
        is_valid_up_to(bytes, k2),
    ensures
        k1 == k2,
{
}

} // verus!
