//! A total order on identities: by kind (node, client, app), then by their
//! keys and addresses, byte by byte.
use vstd::prelude::*;
use core::cmp::Ordering;
use crate::canonical::{canonical, lemma_canonical_injective};
use crate::identity::{lemma_public_id_wf, lemma_view_injective, IdModel, PublicId};

verus! {

/// Lexicographic comparison of two byte sequences.
pub open spec fn lex_cmp(a: Seq<u8>, b: Seq<u8>) -> Ordering
    decreases a.len(),
{
    if a.len() == 0 {
        if b.len() == 0 {
            Ordering::Equal
        } else {
            Ordering::Less
        }
    } else if b.len() == 0 {
        Ordering::Greater
    } else if a[0] < b[0] {
        Ordering::Less
    } else if a[0] > b[0] {
        Ordering::Greater
    } else {
        lex_cmp(a.drop_first(), b.drop_first())
    }
}

/// How two identities compare: by their canonical bytes, whose first byte
/// is the kind.
pub open spec fn id_cmp(a: IdModel, b: IdModel) -> Ordering {
    lex_cmp(canonical(a), canonical(b))
}

/// Byte sequences compare equal exactly when they are equal, and swapping
/// the operands swaps less and greater.
pub proof fn lemma_lex_cmp_total(a: Seq<u8>, b: Seq<u8>)
    ensures
        lex_cmp(a, b) == Ordering::Equal <==> a == b,
        lex_cmp(a, b) == Ordering::Less <==> lex_cmp(b, a) == Ordering::Greater,
    decreases a.len(),
{
    if a.len() != 0 && b.len() != 0 && a[0] == b[0] {
        lemma_lex_cmp_total(a.drop_first(), b.drop_first());
        if a.drop_first() == b.drop_first() {
            assert(a =~= seq![a[0]] + a.drop_first());
            assert(b =~= seq![b[0]] + b.drop_first());
        }
    } else if a.len() == 0 && b.len() == 0 {
        assert(a =~= b);
    }
}

/// Any two identities, of the same kind or not, are ordered one way:
/// exactly one of less, equal and greater holds, equal holds exactly when
/// they are the same identity, and swapping them swaps less and greater.
pub proof fn lemma_id_order_total(a: PublicId, b: PublicId)
    ensures
        id_cmp(a@, b@) == Ordering::Less || id_cmp(a@, b@) == Ordering::Equal || id_cmp(a@, b@)
            == Ordering::Greater,
        id_cmp(a@, b@) == Ordering::Equal <==> a == b,
        id_cmp(a@, b@) == Ordering::Less <==> id_cmp(b@, a@) == Ordering::Greater,
{
    lemma_public_id_wf(a);
    lemma_public_id_wf(b);
    lemma_lex_cmp_total(canonical(a@), canonical(b@));
    lemma_canonical_injective(a@, b@);
    lemma_view_injective(a, b);
}

/// Lexicographic comparison of two byte slices.
pub fn compare_bytes(a: &[u8], b: &[u8]) -> (r: Ordering)
    ensures
        r == lex_cmp(a@, b@),
{
    let mut i: usize = 0;
    assert(a@.subrange(0, a@.len() as int) =~= a@);
    assert(b@.subrange(0, b@.len() as int) =~= b@);
    while i < a.len() && i < b.len()
        invariant
            i <= a@.len(),
            i <= b@.len(),
            lex_cmp(a@, b@) == lex_cmp(a@.subrange(i as int, a@.len() as int), b@.subrange(i as int, b@.len() as int)),
        decreases a@.len() - i,
    {
        let x = a[i];
        let y = b[i];
        let ghost sa = a@.subrange(i as int, a@.len() as int);
        let ghost sb = b@.subrange(i as int, b@.len() as int);
        assert(sa[0] == x && sb[0] == y);
        if x < y {
            return Ordering::Less;
        }
        if x > y {
            return Ordering::Greater;
        }
        assert(sa.drop_first() =~= a@.subrange(i + 1, a@.len() as int));
        assert(sb.drop_first() =~= b@.subrange(i + 1, b@.len() as int));
        i = i + 1;
    }
    if i < a.len() {
        Ordering::Greater
    } else if i < b.len() {
        Ordering::Less
    } else {
        Ordering::Equal
    }
}

impl PublicId {
    /// Compares two identities: nodes before clients before apps, then by
    /// keys and addresses byte by byte.
    pub fn compare(&self, other: &PublicId) -> (r: Ordering)
        ensures
            r == id_cmp(self@, other@),
    {
        let a = self.to_canonical_bytes();
        let b = other.to_canonical_bytes();
        compare_bytes(a.as_slice(), b.as_slice())
    }
}

} // verus!
