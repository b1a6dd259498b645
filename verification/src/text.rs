//! Small string exercises: the longer of two strings, and the first word.

use vstd::prelude::*;
use vstd::string::StrSliceExecFns;
use vstd::string::StringSliceAdditionalSpecFns;

verus! {

/// The longer of two strings, measured in bytes as `str::len` does; ties go
/// to the second.
pub fn longest<'a>(x: &'a str, y: &'a str) -> (r: &'a str)
    requires
        x.spec_bytes().len() <= usize::MAX,
        y.spec_bytes().len() <= usize::MAX,
    ensures
        x.spec_bytes().len() > y.spec_bytes().len() ==> r@ == x@ && r.spec_bytes()
            == x.spec_bytes(),
        x.spec_bytes().len() <= y.spec_bytes().len() ==> r@ == y@ && r.spec_bytes()
            == y.spec_bytes(),
{
    if x.len() > y.len() {
        x
    } else {
        y
    }
}

/// Index of the first space in `s`, or `s.len()` if there is none.
pub open spec fn first_space_index(s: Seq<char>) -> int
    decreases s.len(),
{
    if s.len() == 0 {
        0
    } else if s[0] == ' ' {
        0
    } else {
        1 + first_space_index(s.subrange(1, s.len() as int))
    }
}

/// What `first_space_index` picks: the earliest space, or the length of the
/// sequence when no space occurs.
pub proof fn lemma_first_space_index(s: Seq<char>)
    ensures
        0 <= first_space_index(s) <= s.len(),
        forall|j: int| 0 <= j < first_space_index(s) ==> s[j] != ' ',
        first_space_index(s) < s.len() ==> s[first_space_index(s)] == ' ',
    decreases s.len(),
{
    if s.len() != 0 && s[0] != ' ' {
        let tail = s.subrange(1, s.len() as int);
        lemma_first_space_index(tail);
        assert forall|j: int| 0 <= j < first_space_index(s) implies s[j] != ' ' by {
            if j > 0 {
                assert(tail[j - 1] == s[j]);
            }
        }
    }
}

/// A prefix free of spaces that either spans all of `s` or stops right
/// before a space pins down `first_space_index`.
proof fn lemma_first_space_index_from_prefix(s: Seq<char>, i: int)
    requires
        0 <= i <= s.len(),
        forall|j: int| 0 <= j < i ==> s[j] != ' ',
        i < s.len() ==> s[i] == ' ',
    ensures
        first_space_index(s) == i,
    decreases i,
{
    if s.len() == 0 {
    } else if i == 0 {
    } else {
        let tail = s.subrange(1, s.len() as int);
        assert forall|j: int| 0 <= j < i - 1 implies tail[j] != ' ' by {
            assert(tail[j] == s[j + 1]);
        }
        assert(i - 1 < tail.len() ==> tail[i - 1] == s[i]);
        lemma_first_space_index_from_prefix(tail, i - 1);
    }
}

/// The part of `s` before its first space, or all of `s` if it has none.
pub fn first_word<'a>(s: &'a String) -> (r: &'a str)
    ensures
        r@ == s@.subrange(0, first_space_index(s@)),
{
    let text: &str = s.as_str();
    let n: usize = text.unicode_len();
    let mut i: usize = 0;
    while i < n
        invariant
            i <= n,
            n == s@.len(),
            text@ == s@,
            forall|j: int| 0 <= j < i ==> s@[j] != ' ',
        decreases n - i,
    {
        if text.get_char(i) == ' ' {
            proof {
                lemma_first_space_index_from_prefix(s@, i as int);
            }
            return text.substring_char(0, i);
        }
        i = i + 1;
    }
    proof {
        lemma_first_space_index_from_prefix(s@, n as int);
        assert(s@.subrange(0, s@.len() as int) =~= s@);
    }
    text
}

} // verus!
