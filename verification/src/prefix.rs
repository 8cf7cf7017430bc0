//! The longest prefix shared by every string of a non-empty collection.

use vstd::prelude::*;
use vstd::string::StrSliceExecFns;

verus! {

/// Whether `p` is a prefix of every string in `strs`.
pub open spec fn is_common_prefix(p: Seq<char>, strs: Seq<&str>) -> bool {
    forall|j: int|
        0 <= j < strs.len() ==> p.len() <= (#[trigger] strs[j])@.len() && p == strs[j]@.subrange(
            0,
            p.len() as int,
        )
}

/// Whether every string in `strs` has the character `c` at position
/// `pos`; `false` as soon as one is too short or differs there.
fn all_match_at(strs: &Vec<&str>, pos: usize, c: char) -> (ok: bool)
    ensures
        ok == (forall|j: int|
            0 <= j < strs@.len() ==> pos < (#[trigger] strs@[j])@.len() && strs@[j]@[pos as int]
                == c),
{
    let mut j: usize = 0;
    while j < strs.len()
        invariant
            j <= strs@.len(),
            forall|i: int|
                0 <= i < j ==> pos < (#[trigger] strs@[i])@.len() && strs@[i]@[pos as int] == c,
        decreases strs@.len() - j,
    {
        let sj: &str = strs[j];
        if pos >= sj.unicode_len() {
            return false;
        }
        if sj.get_char(pos) != c {
            return false;
        }
        j = j + 1;
    }
    true
}

/// The longest string that is a prefix of every element of `strs`:
/// it is a common prefix, and no common prefix is longer — which pins
/// the result down uniquely.
pub fn longest_common_prefix(strs: Vec<&str>) -> (r: String)
    requires
        strs@.len() > 0,
    ensures
        is_common_prefix(r@, strs@),
        forall|p: Seq<char>| is_common_prefix(p, strs@) ==> p.len() <= r@.len(),
{
    let first: &str = strs[0];
    let n0: usize = first.unicode_len();
    let mut len: usize = 0;
    let mut stop: bool = false;
    while !stop && len < n0
        invariant
            len <= n0,
            n0 == first@.len(),
            first == strs@[0],
            strs@.len() > 0,
            forall|j: int|
                0 <= j < strs@.len() ==> len <= (#[trigger] strs@[j])@.len() && first@.subrange(
                    0,
                    len as int,
                ) == strs@[j]@.subrange(0, len as int),
            stop ==> exists|j: int|
                0 <= j < strs@.len() && (len == (#[trigger] strs@[j])@.len() || (len
                    < strs@[j]@.len() && strs@[j]@[len as int] != first@[len as int])),
        decreases (if stop { 0int } else { 1int }), n0 - len,
    {
        let c = first.get_char(len);
        if all_match_at(&strs, len, c) {
            proof {
                assert forall|j: int| 0 <= j < strs@.len() implies first@.subrange(
                    0,
                    len + 1,
                ) == (#[trigger] strs@[j])@.subrange(0, len + 1) by {
                    assert(first@.subrange(0, len + 1) =~= strs@[j]@.subrange(0, len + 1));
                }
            }
            len = len + 1;
        } else {
            stop = true;
        }
    }
    let r = first.substring_char(0, len).to_owned();
    proof {
        assert forall|p: Seq<char>| is_common_prefix(p, strs@) implies p.len() <= r@.len() by {
            if p.len() > len {
                assert(p == strs@[0]@.subrange(0, p.len() as int));
                if len < n0 {
                    let j = choose|j: int|
                        0 <= j < strs@.len() && (len == (#[trigger] strs@[j])@.len() || (len
                            < strs@[j]@.len() && strs@[j]@[len as int] != first@[len as int]));
                    assert(p == strs@[j]@.subrange(0, p.len() as int));
                    assert(p[len as int] == strs@[j]@[len as int]);
                    assert(p[len as int] == strs@[0]@[len as int]);
                }
            }
        };
    }
    r
}

} // verus!
