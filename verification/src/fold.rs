//! ASCII case folding of characters and strings, and the folded comparison
//! that token matching is built on.

use vstd::prelude::*;

verus! {

/// ASCII case folding of a single character: `'A'..='Z'` map to their
/// lower-case counterparts, every other character is unchanged.
pub open spec fn fold_char(c: char) -> char {
    if 'A' <= c && c <= 'Z' {
        (((c as u8) + 32) as u8) as char
    } else {
        c
    }
}

/// ASCII case folding of a whole string, character by character.
pub open spec fn lower(s: Seq<char>) -> Seq<char> {
    s.map_values(|c: char| fold_char(c))
}

/// Executable ASCII case folding of one character.
pub fn fold_char_exec(c: char) -> (r: char)
    ensures
        r == fold_char(c),
{
    if 'A' <= c && c <= 'Z' {
        ((c as u8) + 32) as char
    } else {
        c
    }
}

/// Does the ASCII-lower-cased form of `s` equal `t` exactly?
///
/// `t` itself is not folded: a stored token with an upper-case letter can
/// never be equal to a folded input.
pub fn eq_folded(s: &str, t: &str) -> (r: bool)
    ensures
        r == (lower(s@) == t@),
{
    let n = s.unicode_len();
    if n != t.unicode_len() {
        proof {
            assert(lower(s@).len() == s@.len());
        }
        return false;
    }
    let mut i: usize = 0;
    while i < n
        invariant
            n == s@.len(),
            n == t@.len(),
            i <= n,
            forall|j: int| 0 <= j < i ==> fold_char(s@[j]) == t@[j],
        decreases n - i,
    {
        let sc = s.get_char(i);
        let tc = t.get_char(i);
        if fold_char_exec(sc) != tc {
            proof {
                assert(lower(s@)[i as int] != t@[i as int]);
            }
            return false;
        }
        i += 1;
    }
    proof {
        assert(lower(s@) =~= t@);
    }
    true
}

/// Is the ASCII-folded form of `s` equal to one of `values`?
pub fn contains_lowered(values: &Vec<String>, s: &str) -> (r: bool)
    ensures
        r == values.deep_view().contains(lower(s@)),
{
    let mut i: usize = 0;
    while i < values.len()
        invariant
            i <= values.len(),
            forall|j: int| 0 <= j < i ==> values.deep_view()[j] != lower(s@),
        decreases values.len() - i,
    {
        let token = &values[i];
        if eq_folded(s, token.as_str()) {
            proof {
                assert(values.deep_view()[i as int] == lower(s@));
            }
            return true;
        }
        i += 1;
    }
    false
}

} // verus!
