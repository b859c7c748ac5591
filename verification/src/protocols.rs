//! Protocol-name lists and their normal form.
//!
//! The handler reports the protocols it is willing to accept inbound as a
//! list of byte sequences.  Before comparing two such reports the driver
//! brings them to a normal form: names that are not valid UTF-8 are
//! dropped, and the rest are sorted in ascending byte-lexicographic order.
//! A change of the normal form is what the driver reports to the handler
//! as a protocols change.

use vstd::prelude::*;
use vstd::relations::{sorted_by, total_ordering};
use vstd::seq_lib::lemma_sorted_unique;

verus! {

/// Whether a byte sequence is valid UTF-8.  The exact shape of this
/// predicate is left to the standard library's validator.
pub uninterp spec fn is_utf8(b: Seq<u8>) -> bool;

/// Relies on `core::str::from_utf8`: it succeeds exactly on valid UTF-8,
/// a property of the bytes alone.
#[verifier::external_body]
fn utf8_ok(b: &Vec<u8>) -> (r: bool)
    ensures
        r == is_utf8(b@),
{
    core::str::from_utf8(b.as_slice()).is_ok()
}

/// Byte-lexicographic order: `a` is no greater than `b` when, at the first
/// index where they differ, `a` has the smaller byte, or `a` is a prefix
/// of `b`.
pub open spec fn lex_le(a: Seq<u8>, b: Seq<u8>) -> bool
    decreases a.len(),
{
    if a.len() == 0 {
        true
    } else if b.len() == 0 {
        false
    } else if a[0] < b[0] {
        true
    } else if a[0] > b[0] {
        false
    } else {
        lex_le(a.drop_first(), b.drop_first())
    }
}

/// Byte-lexicographic order as a binary relation value.
pub open spec fn lex_leq() -> spec_fn(Seq<u8>, Seq<u8>) -> bool {
    |a: Seq<u8>, b: Seq<u8>| lex_le(a, b)
}

proof fn lemma_lex_le_refl(a: Seq<u8>)
    ensures
        lex_le(a, a),
    decreases a.len(),
{
    if a.len() > 0 {
        lemma_lex_le_refl(a.drop_first());
    }
}

proof fn lemma_lex_le_connected(a: Seq<u8>, b: Seq<u8>)
    ensures
        lex_le(a, b) || lex_le(b, a),
    decreases a.len(),
{
    if a.len() > 0 && b.len() > 0 && a[0] == b[0] {
        lemma_lex_le_connected(a.drop_first(), b.drop_first());
    }
}

proof fn lemma_lex_le_antisymmetric(a: Seq<u8>, b: Seq<u8>)
    requires
        lex_le(a, b),
        lex_le(b, a),
    ensures
        a == b,
    decreases a.len(),
{
    if a.len() > 0 && b.len() > 0 {
        lemma_lex_le_antisymmetric(a.drop_first(), b.drop_first());
        assert(a =~= seq![a[0]] + a.drop_first());
        assert(b =~= seq![b[0]] + b.drop_first());
    } else {
        assert(a =~= b);
    }
}

proof fn lemma_lex_le_transitive(a: Seq<u8>, b: Seq<u8>, c: Seq<u8>)
    requires
        lex_le(a, b),
        lex_le(b, c),
    ensures
        lex_le(a, c),
    decreases a.len(),
{
    if a.len() > 0 && b.len() > 0 && c.len() > 0 && a[0] == b[0] && b[0] == c[0] {
        lemma_lex_le_transitive(a.drop_first(), b.drop_first(), c.drop_first());
    }
}

/// Law: byte-lexicographic order is a total order on byte sequences.
pub proof fn lemma_lex_le_total_ordering()
    ensures
        total_ordering(lex_leq()),
{
    let leq = lex_leq();
    assert forall|a: Seq<u8>| #[trigger] leq(a, a) by {
        lemma_lex_le_refl(a);
    }
    assert forall|a: Seq<u8>, b: Seq<u8>| #[trigger] leq(a, b) || #[trigger] leq(b, a) by {
        lemma_lex_le_connected(a, b);
    }
    assert forall|a: Seq<u8>, b: Seq<u8>| #[trigger] leq(a, b) && #[trigger] leq(b, a) implies a
        == b by {
        lemma_lex_le_antisymmetric(a, b);
    }
    assert forall|a: Seq<u8>, b: Seq<u8>, c: Seq<u8>|
        #[trigger] leq(a, b) && #[trigger] leq(b, c) implies leq(a, c) by {
        lemma_lex_le_transitive(a, b, c);
    }
}

proof fn lemma_lex_le_skip(a: Seq<u8>, b: Seq<u8>, i: int)
    requires
        0 <= i <= a.len(),
        0 <= i <= b.len(),
        forall|k: int| 0 <= k < i ==> a[k] == b[k],
    ensures
        lex_le(a, b) == lex_le(a.skip(i), b.skip(i)),
    decreases i,
{
    if i > 0 {
        assert(a.len() > 0 && b.len() > 0 && a[0] == b[0]);
        assert(a.drop_first() =~= a.skip(1));
        assert(b.drop_first() =~= b.skip(1));
        lemma_lex_le_skip(a.skip(1), b.skip(1), i - 1);
        assert(a.skip(1).skip(i - 1) =~= a.skip(i));
        assert(b.skip(1).skip(i - 1) =~= b.skip(i));
    } else {
        assert(a.skip(0) =~= a);
        assert(b.skip(0) =~= b);
    }
}

/// Compares two byte strings in byte-lexicographic order.
pub fn bytes_le(a: &Vec<u8>, b: &Vec<u8>) -> (r: bool)
    ensures
        r == lex_le(a@, b@),
{
    let a_len = a.len();
    let b_len = b.len();
    let n = if a_len < b_len {
        a_len
    } else {
        b_len
    };
    let mut i: usize = 0;
    while i < n
        invariant
            0 <= i <= n,
            n <= a@.len(),
            n <= b@.len(),
            n == if a@.len() < b@.len() {
                a@.len()
            } else {
                b@.len()
            },
            forall|k: int| 0 <= k < i ==> a@[k] == b@[k],
        decreases n - i,
    {
        if a[i] < b[i] {
            proof {
                lemma_lex_le_skip(a@, b@, i as int);
                assert(a@.skip(i as int)[0] == a@[i as int]);
            }
            return true;
        }
        if a[i] > b[i] {
            proof {
                lemma_lex_le_skip(a@, b@, i as int);
                assert(a@.skip(i as int)[0] == a@[i as int]);
            }
            return false;
        }
        i = i + 1;
    }
    proof {
        lemma_lex_le_skip(a@, b@, n as int);
        assert(a@.skip(n as int).len() == a@.len() - n);
        assert(b@.skip(n as int).len() == b@.len() - n);
    }
    a_len <= b_len
}

/// The abstract value of a protocol-name list: the sequence of its byte
/// sequences.
pub open spec fn name_seq(v: Seq<Vec<u8>>) -> Seq<Seq<u8>> {
    v.map_values(|x: Vec<u8>| x@)
}

/// The UTF-8 validity predicate as a value.
pub open spec fn utf8_pred() -> spec_fn(Seq<u8>) -> bool {
    |n: Seq<u8>| is_utf8(n)
}

/// The normal form of a reported protocol list: the names that are valid
/// UTF-8, in ascending byte-lexicographic order.
pub open spec fn normalized(names: Seq<Seq<u8>>) -> Seq<Seq<u8>> {
    names.filter(utf8_pred()).sort_by(lex_leq())
}

proof fn lemma_name_seq_remove(v: Seq<Vec<u8>>, i: int)
    requires
        0 <= i < v.len(),
    ensures
        name_seq(v.remove(i)) == name_seq(v).remove(i),
{
    assert(name_seq(v.remove(i)) =~= name_seq(v).remove(i));
}

proof fn lemma_name_seq_insert(v: Seq<Vec<u8>>, i: int, x: Vec<u8>)
    requires
        0 <= i <= v.len(),
    ensures
        name_seq(v.insert(i, x)) == name_seq(v).insert(i, x@),
{
    assert(name_seq(v.insert(i, x)) =~= name_seq(v).insert(i, x@));
}

proof fn lemma_filter_push(s: Seq<Seq<u8>>, x: Seq<u8>, pred: spec_fn(Seq<u8>) -> bool)
    ensures
        s.push(x).filter(pred) == if pred(x) {
            s.filter(pred).push(x)
        } else {
            s.filter(pred)
        },
{
    reveal(Seq::filter);
    assert(s.push(x).drop_last() =~= s);
    assert(s.push(x).last() == x);
}

/// Sorts a protocol list in ascending byte-lexicographic order of its
/// names.
pub fn sort_protocols(v: &mut Vec<Vec<u8>>)
    ensures
        name_seq(final(v)@) == name_seq(old(v)@).sort_by(lex_leq()),
{
    proof {
        lemma_lex_le_total_ordering();
        broadcast use vstd::seq_lib::group_to_multiset_ensures;
        broadcast use vstd::seq_lib::to_multiset_insert;
        broadcast use vstd::seq_lib::to_multiset_remove;

    }
    let ghost orig = name_seq(v@);
    let mut i: usize = 1;
    while i < v.len()
        invariant
            1 <= i,
            v@.len() == orig.len(),
            v@.len() > 0 ==> i <= v@.len(),
            sorted_by(
                name_seq(v@).subrange(
                    0,
                    if i as int <= v@.len() {
                        i as int
                    } else {
                        v@.len() as int
                    },
                ),
                lex_leq(),
            ),
            name_seq(v@).to_multiset() == orig.to_multiset(),
            total_ordering(lex_leq()),
        decreases v@.len() - i,
    {
        let ghost bv = v@;
        let ghost before = name_seq(v@);
        let x = v.remove(i);
        let ghost mv = v@;
        let ghost mid = name_seq(v@);
        proof {
            broadcast use vstd::seq_lib::group_to_multiset_ensures;
            broadcast use vstd::seq_lib::to_multiset_remove;

            lemma_name_seq_remove(bv, i as int);
            assert(mid == before.remove(i as int));
            assert(before[i as int] == x@);
            assert(before.to_multiset().contains(x@)) by {
                assert(before.contains(x@));
            }
            assert(mid.to_multiset() =~= before.to_multiset().remove(x@));
            assert(mid.subrange(0, i as int) =~= before.subrange(0, i as int));
        }
        let mut pos: usize = 0;
        while pos < i
            invariant
                pos <= i,
                i as int <= mid.len(),
                name_seq(v@) == mid,
                forall|k: int| 0 <= k < pos ==> lex_le(#[trigger] mid[k], x@),
            ensures
                pos <= i,
                name_seq(v@) == mid,
                forall|k: int| 0 <= k < pos ==> lex_le(#[trigger] mid[k], x@),
                pos < i ==> !lex_le(mid[pos as int], x@),
            decreases i - pos,
        {
            if !bytes_le(&v[pos], &x) {
                break ;
            }
            pos = pos + 1;
        }
        v.insert(pos, x);
        proof {
            broadcast use vstd::seq_lib::group_to_multiset_ensures;
            broadcast use vstd::seq_lib::to_multiset_insert;

            lemma_name_seq_insert(mv, pos as int, x);
            let after = name_seq(v@);
            assert(after == mid.insert(pos as int, x@));
            assert(after.to_multiset() =~= mid.to_multiset().insert(x@));
            assert(after.to_multiset() =~= before.to_multiset()) by {
                assert(mid.to_multiset() =~= before.to_multiset().remove(x@));
                assert(before.to_multiset().contains(x@));
                assert(mid.to_multiset().insert(x@) =~= before.to_multiset());
            }
            // The sorted prefix of length i, with x inserted at `pos`, is
            // sorted up to length i + 1.
            let leq = lex_leq();
            assert(forall|p: Seq<u8>, q: Seq<u8>| #[trigger] leq(p, q) == lex_le(p, q));
            let pre = after.subrange(0, i + 1);
            let sp = mid.subrange(0, i as int);
            assert(forall|q: int| 0 <= q < i ==> #[trigger] mid[q] == sp[q]);
            if pos < i {
                lemma_lex_le_connected(x@, mid[pos as int]);
                assert(lex_le(x@, mid[pos as int]));
            }
            assert forall|a: int, b: int| 0 <= a < b < pre.len() implies lex_le(
                #[trigger] pre[a],
                #[trigger] pre[b],
            ) by {
                assert(forall|k: int| 0 <= k < pos ==> #[trigger] pre[k] == mid[k]);
                assert(pre[pos as int] == x@);
                assert(forall|k: int| pos < k <= i ==> #[trigger] pre[k] == mid[k - 1]);
                if b < pos {
                    assert(leq(sp[a], sp[b]));
                } else if b == pos {
                    // pre[a] == mid[a] and mid[a] <= x by the scan.
                    assert(lex_le(mid[a], x@));
                } else if a == pos {
                    // x <= mid[pos] <= mid[b - 1].
                    if b - 1 > pos {
                        assert(leq(sp[pos as int], sp[b - 1]));
                        lemma_lex_le_transitive(x@, mid[pos as int], mid[b - 1]);
                    }
                } else if a < pos {
                    assert(leq(sp[a], sp[b - 1]));
                } else {
                    assert(leq(sp[a - 1], sp[b - 1]));
                }
            }
            assert(sorted_by(pre, lex_leq()));
            assert(pre =~= after.subrange(
                0,
                if i + 1 <= after.len() {
                    i + 1
                } else {
                    after.len() as int
                },
            ));
        }
        i = i + 1;
    }
    proof {
        let ns = name_seq(v@);
        if orig.len() == 0 {
            assert(ns.len() == 0);
            assert(ns =~= ns.subrange(0, 0));
        } else if orig.len() == 1 {
            assert(ns =~= ns.subrange(0, 1));
        } else {
            assert(i as int == ns.len());
            assert(ns =~= ns.subrange(0, ns.len() as int));
        }
        assert(sorted_by(ns, lex_leq()));
        orig.lemma_sort_by_ensures(lex_leq());
        lemma_sorted_unique(ns, orig.sort_by(lex_leq()), lex_leq());
        assert(ns =~= orig.sort_by(lex_leq()));
    }
}

/// Brings a reported protocol list to its normal form: the names that are
/// valid UTF-8, in ascending byte-lexicographic order.
pub fn normalize_protocols(names: &Vec<Vec<u8>>) -> (r: Vec<Vec<u8>>)
    ensures
        name_seq(r@) == normalized(name_seq(names@)),
{
    let ghost ns = name_seq(names@);
    let mut kept: Vec<Vec<u8>> = Vec::new();
    let mut idx: usize = 0;
    while idx < names.len()
        invariant
            idx <= names@.len(),
            ns == name_seq(names@),
            name_seq(kept@) == ns.subrange(0, idx as int).filter(utf8_pred()),
        decreases names@.len() - idx,
    {
        let item = (&names[idx]).clone();
        proof {
            assert(item@ =~= names@[idx as int]@);
        }
        let ghost kept_before = kept@;
        if utf8_ok(&item) {
            kept.push(item);
        }
        proof {
            let pred = utf8_pred();
            assert(pred(ns[idx as int]) == is_utf8(ns[idx as int]));
            assert(ns.subrange(0, idx + 1) =~= ns.subrange(0, idx as int).push(ns[idx as int]));
            lemma_filter_push(ns.subrange(0, idx as int), ns[idx as int], pred);
            if is_utf8(ns[idx as int]) {
                assert(name_seq(kept@) =~= name_seq(kept_before).push(item@));
            }
        }
        idx = idx + 1;
    }
    proof {
        assert(ns.subrange(0, ns.len() as int) =~= ns);
    }
    sort_protocols(&mut kept);
    kept
}

/// Whether two byte strings are equal.
pub fn bytes_eq(a: &Vec<u8>, b: &Vec<u8>) -> (r: bool)
    ensures
        r == (a@ == b@),
{
    if a.len() != b.len() {
        return false;
    }
    let mut i: usize = 0;
    while i < a.len()
        invariant
            i <= a@.len(),
            a@.len() == b@.len(),
            forall|k: int| 0 <= k < i ==> a@[k] == b@[k],
        decreases a@.len() - i,
    {
        if a[i] != b[i] {
            return false;
        }
        i = i + 1;
    }
    proof {
        assert(a@ =~= b@);
    }
    true
}

/// Whether two protocol lists hold the same names in the same order.
pub fn protocol_lists_eq(a: &Vec<Vec<u8>>, b: &Vec<Vec<u8>>) -> (r: bool)
    ensures
        r == (name_seq(a@) == name_seq(b@)),
{
    if a.len() != b.len() {
        return false;
    }
    let mut i: usize = 0;
    while i < a.len()
        invariant
            i <= a@.len(),
            a@.len() == b@.len(),
            forall|k: int| 0 <= k < i ==> #[trigger] name_seq(a@)[k] == name_seq(b@)[k],
        decreases a@.len() - i,
    {
        if !bytes_eq(&a[i], &b[i]) {
            proof {
                assert(name_seq(a@)[i as int] != name_seq(b@)[i as int]);
            }
            return false;
        }
        i = i + 1;
    }
    proof {
        assert(name_seq(a@) =~= name_seq(b@));
    }
    true
}

/// An owned copy of a protocol list.
pub fn clone_protocol_list(v: &Vec<Vec<u8>>) -> (r: Vec<Vec<u8>>)
    ensures
        name_seq(r@) == name_seq(v@),
{
    let mut out: Vec<Vec<u8>> = Vec::new();
    let mut i: usize = 0;
    while i < v.len()
        invariant
            i <= v@.len(),
            name_seq(out@) == name_seq(v@).subrange(0, i as int),
        decreases v@.len() - i,
    {
        let item = (&v[i]).clone();
        proof {
            assert(item@ =~= v@[i as int]@);
        }
        let ghost before_push = out@;
        out.push(item);
        proof {
            assert(name_seq(out@) =~= name_seq(before_push).push(item@));
            assert(name_seq(out@) =~= name_seq(v@).subrange(0, i as int + 1));
        }
        i = i + 1;
    }
    proof {
        assert(name_seq(v@).subrange(0, v@.len() as int) =~= name_seq(v@));
    }
    out
}

} // verus!
