use vstd::prelude::*;
use vstd::string::StrSliceExecFns;

verus! {

/// Classification of one observed field name into the closed set of
/// roles the response shape knows about.  Producing this value never
/// fails: a name that matches none of the four literals — names that
/// differ only in case or whitespace among them — is `Unknown`, which is
/// an expected outcome, not an error.
#[derive(Clone, Copy, Debug, PartialEq, Eq)]
pub enum Key {
    JsonRpc,
    Id,
    ResultField,
    ErrorField,
    Unknown,
}

/// What `classify` returns: the first of the four literal field names
/// that the given name equals, else `Unknown`.
pub open spec fn spec_classify(s: Seq<char>) -> Key {
    if s == "jsonrpc"@ {
        Key::JsonRpc
    } else if s == "id"@ {
        Key::Id
    } else if s == "result"@ {
        Key::ResultField
    } else if s == "error"@ {
        Key::ErrorField
    } else {
        Key::Unknown
    }
}

/// Character-for-character equality of two string slices.
pub fn str_eq(a: &str, b: &str) -> (r: bool)
    ensures
        r == (a@ == b@),
{
    let alen = a.unicode_len();
    let blen = b.unicode_len();
    if alen != blen {
        return false;
    }
    let mut i: usize = 0;
    while i < alen
        invariant
            alen == a@.len(),
            blen == b@.len(),
            alen == blen,
            i <= alen,
            forall|j: int| 0 <= j < i ==> a@[j] == b@[j],
        decreases alen - i,
    {
        if a.get_char(i) != b.get_char(i) {
            return false;
        }
        i = i + 1;
    }
    proof {
        assert(a@ =~= b@);
    }
    true
}

/// Classify one field name.  This is the key-recognition step of the
/// enumeration-dispatch decoding strategy.
pub fn classify(key: &str) -> (k: Key)
    ensures
        k == spec_classify(key@),
{
    if str_eq(key, "jsonrpc") {
        Key::JsonRpc
    } else if str_eq(key, "id") {
        Key::Id
    } else if str_eq(key, "result") {
        Key::ResultField
    } else if str_eq(key, "error") {
        Key::ErrorField
    } else {
        Key::Unknown
    }
}

} // verus!
