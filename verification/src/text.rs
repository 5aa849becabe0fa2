use vstd::prelude::*;
use vstd::string::*;

verus! {

/// A content type carries its name in the form "type/subtype": what makes a
/// name well formed is that the separator occurs in it.
pub open spec fn well_formed(mime_type: Seq<char>) -> bool {
    mime_type.contains('/')
}

/// Whether `mime_type` holds the separator between type and subtype.
pub fn is_well_formed(mime_type: &str) -> (found: bool)
    ensures
        found == well_formed(mime_type@),
{
    let n: usize = mime_type.unicode_len();
    let mut i: usize = 0;
    while i < n
        invariant
            n == mime_type@.len(),
            i <= n,
            forall|j: int| 0 <= j < i ==> mime_type@[j] != '/',
        decreases n - i,
    {
        if mime_type.get_char(i) == '/' {
            return true;
        }
        i += 1;
    }
    false
}

/// Whether two strings hold the same characters.
pub fn same_text(a: &str, b: &str) -> (same: bool)
    ensures
        same == (a@ == b@),
{
    let x = a.as_bytes();
    let y = b.as_bytes();
    proof {
        vstd::utf8::encode_utf8_decode_utf8(a@);
        vstd::utf8::encode_utf8_decode_utf8(b@);
    }
    if x.len() != y.len() {
        return false;
    }
    let n: usize = x.len();
    let mut i: usize = 0;
    while i < n
        invariant
            n == x@.len(),
            n == y@.len(),
            x@ == a.spec_bytes(),
            y@ == b.spec_bytes(),
            i <= n,
            forall|j: int| 0 <= j < i ==> x@[j] == y@[j],
        decreases n - i,
    {
        if x[i] != y[i] {
            return false;
        }
        i += 1;
    }
    assert(x@ =~= y@);
    true
}

} // verus!
