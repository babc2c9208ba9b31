use vstd::prelude::*;

verus! {

/// Compares two string slices character by character.
pub fn str_eq(a: &str, b: &str) -> (r: bool)
    ensures
        r == (a@ == b@),
{
    let n = a.unicode_len();
    let m = b.unicode_len();
    if n != m {
        return false;
    }
    let mut i: usize = 0;
    while i < n
        invariant
            n == a@.len(),
            n == b@.len(),
            0 <= i <= n,
            forall|j: int| 0 <= j < i ==> a@[j] == b@[j],
        decreases n - i,
    {
        if a.get_char(i) != b.get_char(i) {
            return false;
        }
        i = i + 1;
    }
    proof {
        assert(a@ =~= b@);
    }
    true
}

/// Hands out the separator that precedes each query-string parameter: `?`
/// before the first parameter, `&` before every later one.
pub struct QueryChars(bool);

impl QueryChars {
    /// True once the leading `?` has been handed out.
    pub closed spec fn started(&self) -> bool {
        self.0
    }

    pub fn new() -> (r: QueryChars)
        ensures
            !r.started(),
    {
        QueryChars(false)
    }

    pub fn next_char(&mut self) -> (c: char)
        ensures
            final(self).started(),
            c == (if old(self).started() {
                '&'
            } else {
                '?'
            }),
    {
        if self.0 {
            '&'
        } else {
            self.0 = true;
            '?'
        }
    }
}

} // verus!
