//! Verified string helpers: prefix tests and the removal of one leading
//! prefix or one trailing character, as the pipeline applies them to the
//! `ENC(...)` wrapper and to the server address's scheme.
use vstd::prelude::*;

verus! {

/// `s` begins with `p`.
pub open spec fn starts_with_seq(s: Seq<char>, p: Seq<char>) -> bool {
    p.len() <= s.len() && s.subrange(0, p.len() as int) == p
}

/// `s` without one leading occurrence of `p`, where present.
pub open spec fn strip_prefix_one(s: Seq<char>, p: Seq<char>) -> Seq<char> {
    if starts_with_seq(s, p) {
        s.subrange(p.len() as int, s.len() as int)
    } else {
        s
    }
}

/// `s` without one trailing occurrence of `c`, where present.
pub open spec fn strip_suffix_char_one(s: Seq<char>, c: char) -> Seq<char> {
    if s.len() > 0 && s.last() == c {
        s.drop_last()
    } else {
        s
    }
}

/// Whether `s` begins with `p`, decided character by character.
pub fn str_starts_with(s: &str, p: &str) -> (b: bool)
    ensures
        b == starts_with_seq(s@, p@),
{
    let slen = s.unicode_len();
    let plen = p.unicode_len();
    if plen > slen {
        return false;
    }
    let mut i: usize = 0;
    while i < plen
        invariant
            i <= plen,
            plen <= slen,
            plen == p@.len(),
            slen == s@.len(),
            forall|j: int| 0 <= j < i ==> s@[j] == p@[j],
        decreases plen - i,
    {
        if s.get_char(i) != p.get_char(i) {
            return false;
        }
        i = i + 1;
    }
    proof {
        assert(s@.subrange(0, p@.len() as int) =~= p@);
    }
    true
}

/// `s` without one leading occurrence of `p`, where present.
pub fn strip_prefix_once(s: &str, p: &str) -> (r: String)
    ensures
        r@ == strip_prefix_one(s@, p@),
{
    if str_starts_with(s, p) {
        let slen = s.unicode_len();
        let plen = p.unicode_len();
        s.substring_char(plen, slen).to_owned()
    } else {
        s.to_owned()
    }
}

/// `s` without one trailing occurrence of `c`, where present.
pub fn strip_suffix_char_once(s: &str, c: char) -> (r: String)
    ensures
        r@ == strip_suffix_char_one(s@, c),
{
    let len = s.unicode_len();
    if len > 0 && s.get_char(len - 1) == c {
        proof {
            assert(s@.subrange(0, s@.len() - 1) =~= s@.drop_last());
        }
        s.substring_char(0, len - 1).to_owned()
    } else {
        s.to_owned()
    }
}

} // verus!
