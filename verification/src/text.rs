use vstd::prelude::*;
use vstd::string::StrSliceExecFns;

verus! {

/// The separator `sep` does not stand in `s` from `from` up to `to`.
pub open spec fn free_of(s: Seq<char>, sep: char, from: int, to: int) -> bool {
    forall|i: int| from <= i < to ==> s[i] != sep
}

/// `end` is where the segment that starts at `from` ends: at the next
/// separator, or at the end of `s`.
pub open spec fn segment(s: Seq<char>, sep: char, from: int, end: int) -> bool {
    &&& 0 <= from <= end <= s.len()
    &&& free_of(s, sep, from, end)
    &&& (end < s.len() ==> s[end] == sep)
}

/// The end of the segment of `text` that starts at the character `from`.
pub fn segment_end(text: &str, sep: char, from: usize) -> (end: usize)
    requires
        from <= text@.len(),
    ensures
        segment(text@, sep, from as int, end as int),
{
    let len: usize = text.unicode_len();
    let mut i: usize = from;
    while i < len
        invariant
            from <= i <= len,
            len == text@.len(),
            free_of(text@, sep, from as int, i as int),
        decreases len - i,
    {
        if text.get_char(i) == sep {
            return i;
        }
        i = i + 1;
    }
    i
}

} // verus!
