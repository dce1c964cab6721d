//! Support for the bulk loader: deriving a storage table name from an
//! aggregated file's name — the extension stripped, each hyphen replaced
//! with an underscore.

use vstd::prelude::*;
use crate::text::{dashes_to_underscores, free_of, replace_dashes};

verus! {

/// The index of the last dot in a text, or -1 if it has none.
pub open spec fn last_dot(s: Seq<char>) -> int
    decreases s.len(),
{
    if s.len() == 0 {
        -1
    } else if s.last() == '.' {
        s.len() - 1
    } else {
        last_dot(s.drop_last())
    }
}

/// A file name without its extension; a name whose only dot leads it, or
/// that has none, stays whole.
pub open spec fn stem_of(s: Seq<char>) -> Seq<char> {
    let i = last_dot(s);
    if i > 0 {
        s.subrange(0, i)
    } else {
        s
    }
}

/// A dot at `i` with none after it pins `last_dot` to `i`.
proof fn lemma_last_dot_at(s: Seq<char>, i: int)
    requires
        0 <= i < s.len(),
        s[i] == '.',
        forall|j: int| i < j < s.len() ==> s[j] != '.',
    ensures
        last_dot(s) == i,
    decreases s.len(),
{
    if i == s.len() - 1 {
    } else {
        assert(s.last() != '.');
        assert(s.drop_last()[i] == s[i]);
        lemma_last_dot_at(s.drop_last(), i);
    }
}

/// No dot at all pins `last_dot` to -1.
proof fn lemma_last_dot_none(s: Seq<char>)
    requires
        free_of(s, '.'),
    ensures
        last_dot(s) == -1,
    decreases s.len(),
{
    if s.len() > 0 {
        lemma_last_dot_none(s.drop_last());
    }
}

/// Derives the storage table name of an aggregated file: its name without
/// the extension, hyphens replaced by underscores.
pub fn table_name_for_file(file_name: &str) -> (r: String)
    ensures
        r@ == replace_dashes(stem_of(file_name@)),
{
    let len = file_name.unicode_len();
    let mut b: usize = len;
    while b > 0 && file_name.get_char(b - 1) != '.'
        invariant
            0 <= b <= len,
            len == file_name@.len(),
            forall|j: int| b <= j < len ==> file_name@[j] != '.',
        decreases b,
    {
        b -= 1;
    }
    if b > 1 {
        proof {
            lemma_last_dot_at(file_name@, b - 1);
        }
        let stem = file_name.substring_char(0, b - 1);
        dashes_to_underscores(stem)
    } else {
        proof {
            if b == 0 {
                lemma_last_dot_none(file_name@);
            } else {
                lemma_last_dot_at(file_name@, 0);
            }
        }
        dashes_to_underscores(file_name)
    }
}

} // verus!
