//! Small string helpers.
use vstd::prelude::*;
use vstd::string::StringSliceAdditionalSpecFns;

verus! {

/// Length of `s` in bytes.
pub fn strlen(s: &str) -> (r: usize)
    ensures
        r == s.spec_bytes().len(),
{
    s.as_bytes().len()
}

/// Zero when the two strings are equal (byte for byte), one otherwise.
pub fn strcmp(s1: &str, s2: &str) -> (r: i32)
    ensures
        r == (if s1.spec_bytes() == s2.spec_bytes() {
            0i32
        } else {
            1i32
        }),
{
    let a = s1.as_bytes();
    let b = s2.as_bytes();
    if a.len() != b.len() {
        return 1;
    }
    let n = a.len();
    let mut i: usize = 0;
    while i < n
        invariant
            i <= n,
            n == a@.len(),
            n == b@.len(),
            a@ == s1.spec_bytes(),
            b@ == s2.spec_bytes(),
            a@.take(i as int) == b@.take(i as int),
        decreases n - i,
    {
        if a[i] != b[i] {
            assert(a@[i as int] != b@[i as int]);
            return 1;
        }
        assert(a@.take(i + 1) =~= a@.take(i as int).push(a@[i as int]));
        assert(b@.take(i + 1) =~= b@.take(i as int).push(b@[i as int]));
        i += 1;
    }
    assert(a@ =~= a@.take(n as int));
    assert(b@ =~= b@.take(n as int));
    0
}

} // verus!
