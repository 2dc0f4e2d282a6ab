//! Lexicographic ordering of entry names, and sorting of an entry list.
//!
//! Names are compared character by character, case-sensitively, by the
//! characters' code-point values; a prefix orders before every extension
//! of it. Sorting is a plain insertion sort, proved to return a sorted
//! permutation of its input.

use vstd::prelude::*;
use vstd::seq_lib::to_multiset_build;
use vstd::seq_lib::to_multiset_insert;
use vstd::string::StrSliceExecFns;

verus! {

/// `a` orders at or before `b`: at the first position where they differ
/// the character of `a` has the smaller code point, or `a` is a prefix of
/// `b`.
pub open spec fn lex_le(a: Seq<char>, b: Seq<char>) -> bool
    decreases a.len(),
{
    if a.len() == 0 {
        true
    } else if b.len() == 0 {
        false
    } else if (a[0] as u32) < (b[0] as u32) {
        true
    } else if (a[0] as u32) > (b[0] as u32) {
        false
    } else {
        lex_le(a.drop_first(), b.drop_first())
    }
}

/// Every list of names is comparable in one direction or the other.
pub proof fn lemma_lex_le_total(a: Seq<char>, b: Seq<char>)
    ensures
        lex_le(a, b) || lex_le(b, a),
    decreases a.len(),
{
    if a.len() > 0 && b.len() > 0 && (a[0] as u32) == (b[0] as u32) {
        lemma_lex_le_total(a.drop_first(), b.drop_first());
    }
}

/// The ordering is transitive.
pub proof fn lemma_lex_le_trans(a: Seq<char>, b: Seq<char>, c: Seq<char>)
    requires
        lex_le(a, b),
        lex_le(b, c),
    ensures
        lex_le(a, c),
    decreases a.len(),
{
    if a.len() > 0 && b.len() > 0 && c.len() > 0 && (a[0] as u32) == (b[0] as u32) && (b[0] as u32)
        == (c[0] as u32) {
        lemma_lex_le_trans(a.drop_first(), b.drop_first(), c.drop_first());
    }
}

/// A sequence of names in which every earlier name orders at or before
/// every later one.
pub open spec fn lex_sorted(s: Seq<Seq<char>>) -> bool {
    forall|i: int, j: int| 0 <= i < j < s.len() ==> lex_le(s[i], s[j])
}

/// Compare two names, returning whether `a` orders at or before `b`.
pub fn str_le(a: &str, b: &str) -> (r: bool)
    ensures
        r == lex_le(a@, b@),
{
    let a_len: usize = a.unicode_len();
    let b_len: usize = b.unicode_len();
    let mut i: usize = 0;
    proof {
        assert(a@.skip(0) =~= a@);
        assert(b@.skip(0) =~= b@);
    }
    loop
        invariant
            i <= a_len,
            i <= b_len,
            a_len == a@.len(),
            b_len == b@.len(),
            lex_le(a@, b@) == lex_le(a@.skip(i as int), b@.skip(i as int)),
        decreases a_len - i,
    {
        if i >= a_len {
            return true;
        }
        if i >= b_len {
            return false;
        }
        let ca = a.get_char(i);
        let cb = b.get_char(i);
        if (ca as u32) < (cb as u32) {
            return true;
        }
        if (ca as u32) > (cb as u32) {
            return false;
        }
        proof {
            assert(a@.skip(i as int).drop_first() =~= a@.skip(i as int + 1));
            assert(b@.skip(i as int).drop_first() =~= b@.skip(i as int + 1));
        }
        i = i + 1;
    }
}

/// Inserting a name between the names at or before it and the names at or
/// after it keeps the sequence sorted.
proof fn lemma_lex_sorted_insert(s: Seq<Seq<char>>, pos: int, x: Seq<char>)
    requires
        lex_sorted(s),
        0 <= pos <= s.len(),
        forall|k: int| 0 <= k < pos ==> lex_le(s[k], x),
        forall|k: int| pos <= k < s.len() ==> lex_le(x, s[k]),
    ensures
        lex_sorted(s.insert(pos, x)),
{
    let t = s.insert(pos, x);
    assert forall|i: int, j: int| 0 <= i < j < t.len() implies lex_le(t[i], t[j]) by {
        if i < pos && j > pos {
            lemma_lex_le_trans(t[i], x, t[j]);
        }
    }
}

/// The index at which a name belongs in a sorted list: everything before
/// it orders at or before the name, everything from it on orders at or
/// after the name.
fn insertion_point(sorted: &Vec<String>, name: &String) -> (pos: usize)
    requires
        lex_sorted(sorted.deep_view()),
    ensures
        pos <= sorted.len(),
        forall|k: int| 0 <= k < pos ==> lex_le(sorted.deep_view()[k], name@),
        forall|k: int| pos <= k < sorted.len() ==> lex_le(name@, sorted.deep_view()[k]),
{
    let ghost dv = sorted.deep_view();
    let mut pos: usize = 0;
    loop
        invariant
            pos <= sorted.len(),
            dv == sorted.deep_view(),
            lex_sorted(dv),
            dv.len() == sorted.len(),
            forall|k: int| 0 <= k < pos ==> lex_le(dv[k], name@),
        ensures
            pos <= sorted.len(),
            forall|k: int| 0 <= k < pos ==> lex_le(dv[k], name@),
            forall|k: int| pos <= k < sorted.len() ==> lex_le(name@, dv[k]),
        decreases sorted.len() - pos,
    {
        if pos >= sorted.len() {
            break;
        }
        if !str_le(sorted[pos].as_str(), name.as_str()) {
            proof {
                lemma_lex_le_total(dv[pos as int], name@);
                assert forall|k: int| pos <= k < sorted.len() implies lex_le(name@, dv[k]) by {
                    if k > pos {
                        lemma_lex_le_trans(name@, dv[pos as int], dv[k]);
                    }
                }
            }
            break;
        }
        pos = pos + 1;
    }
    pos
}

/// Sort a list of names lexicographically. The result is sorted and holds
/// exactly the names of the input.
pub fn sort_names(input: Vec<String>) -> (out: Vec<String>)
    ensures
        lex_sorted(out.deep_view()),
        out.deep_view().to_multiset() == input.deep_view().to_multiset(),
{
    let ghost in_dv = input.deep_view();
    let mut out: Vec<String> = Vec::new();
    let mut i: usize = 0;
    proof {
        assert(out.deep_view() =~= Seq::<Seq<char>>::empty());
        assert(in_dv.take(0) =~= Seq::<Seq<char>>::empty());
    }
    while i < input.len()
        invariant
            i <= input.len(),
            in_dv == input.deep_view(),
            in_dv.len() == input.len(),
            lex_sorted(out.deep_view()),
            out.deep_view().to_multiset() == in_dv.take(i as int).to_multiset(),
        decreases input.len() - i,
    {
        let name = input[i].clone();
        let pos = insertion_point(&out, &name);
        let ghost old_dv = out.deep_view();
        out.insert(pos, name);
        proof {
            assert(out.deep_view() =~= old_dv.insert(pos as int, name@));
            lemma_lex_sorted_insert(old_dv, pos as int, name@);
            to_multiset_insert(old_dv, pos as int, name@);
            assert(in_dv.take(i as int + 1) =~= in_dv.take(i as int).push(in_dv[i as int]));
            to_multiset_build(in_dv.take(i as int), in_dv[i as int]);
        }
        i = i + 1;
    }
    proof {
        assert(in_dv.take(input.len() as int) =~= in_dv);
    }
    out
}

} // verus!
