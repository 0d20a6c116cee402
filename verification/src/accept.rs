//! Which declared content types a bincode body may arrive under.

use vstd::prelude::*;
use vstd::string::*;
use vstd::utf8::*;

verus! {

/// The full media type of a bincode payload.
pub const MEDIA_TYPE: &'static str = "application/bincode";

/// The short form under which a bincode payload is accepted too.
pub const SHORT_TYPE: &'static str = "bincode";

/// Whether `descriptor` is one of the two content types that are always
/// accepted. The match is exact and case-sensitive.
pub open spec fn in_accept_set(descriptor: Seq<char>) -> bool {
    descriptor == "application/bincode"@ || descriptor == "bincode"@
}

/// Whether `descriptor` is accepted, where `verdict` is what the installed
/// predicate returned for it, or `None` where no predicate is installed.
pub open spec fn admits(descriptor: Seq<char>, verdict: Option<bool>) -> bool {
    in_accept_set(descriptor) || verdict == Some(true)
}

/// Two strings with the same UTF-8 encoding are the same string.
pub proof fn lemma_same_bytes_same_text(a: &str, b: &str)
    requires
        a.spec_bytes() == b.spec_bytes(),
    ensures
        a@ == b@,
{
    encode_utf8_decode_utf8(a@);
    encode_utf8_decode_utf8(b@);
}

/// Whether two byte slices hold the same bytes.
pub fn same_bytes(a: &[u8], b: &[u8]) -> (same: bool)
    ensures
        same == (a@ == b@),
{
    if a.len() != b.len() {
        return false;
    }
    let mut i: usize = 0;
    while i < a.len()
        invariant
            a@.len() == b@.len(),
            i <= a@.len(),
            forall|j: int| 0 <= j < i ==> a@[j] == b@[j],
        decreases a@.len() - i,
    {
        if a[i] != b[i] {
            return false;
        }
        i += 1;
    }
    assert(a@ =~= b@);
    true
}

/// Whether two strings are equal, character by character.
pub fn same_text(a: &str, b: &str) -> (same: bool)
    ensures
        same == (a@ == b@),
{
    let same = same_bytes(a.as_bytes(), b.as_bytes());
    proof {
        if same {
            lemma_same_bytes_same_text(a, b);
        }
    }
    same
}

/// Whether `content_type` is one of the two content types that are always
/// accepted.
pub fn is_bincode_type(content_type: &str) -> (accepted: bool)
    ensures
        accepted == in_accept_set(content_type@),
{
    same_text(content_type, MEDIA_TYPE) || same_text(content_type, SHORT_TYPE)
}

/// Whether `accepted` is the decision on `content_type` under the
/// predicate `ctype`: a content type of the fixed accept set is accepted;
/// without a predicate nothing else is; with one, any other content type is
/// accepted exactly when the predicate returned `true` for it.
pub open spec fn decided<P: Fn(&str) -> bool>(
    content_type: &str,
    ctype: Option<&P>,
    accepted: bool,
) -> bool {
    &&& in_accept_set(content_type@) ==> accepted
    &&& ctype is None ==> accepted == admits(content_type@, None)
    &&& !in_accept_set(content_type@) ==> (ctype matches Some(p) ==> call_ensures(
        *p,
        (content_type,),
        accepted,
    ))
}

/// Decides whether a body declared as `content_type` is accepted. The two
/// fixed content types always are; any other is accepted exactly when a
/// predicate is installed and returns `true` for it. The predicate is not
/// called for the two fixed content types.
pub fn accepts<P: Fn(&str) -> bool>(content_type: &str, ctype: Option<&P>) -> (accepted: bool)
    requires
        ctype matches Some(p) ==> call_requires(*p, (content_type,)),
    ensures
        decided(content_type, ctype, accepted),
{
    if is_bincode_type(content_type) {
        true
    } else {
        match ctype {
            Some(predicate) => predicate(content_type),
            None => false,
        }
    }
}

/// Every content type of the fixed accept set is accepted, whatever a
/// predicate says; without a predicate, nothing else is.
pub proof fn lemma_fixed_set_decides(descriptor: Seq<char>, verdict: Option<bool>)
    ensures
        in_accept_set(descriptor) ==> admits(descriptor, verdict),
        !in_accept_set(descriptor) ==> !admits(descriptor, None),
{
}

/// Outside the fixed accept set, the decision is the installed predicate's
/// answer.
pub proof fn lemma_predicate_decides(descriptor: Seq<char>, answer: bool)
    requires
        !in_accept_set(descriptor),
    ensures
        admits(descriptor, Some(answer)) == answer,
{
}

} // verus!
