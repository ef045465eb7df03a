//! The two orders of the parameters: the order of registration, and the
//! order in which they are shown and exported.
//!
//! The display order puts the writable parameters before the read-only
//! ones, within each the integer ones before the binary32 ones, and keeps
//! the order of registration among parameters that agree in both.

use crate::params::{Access, ParamKind, ParamType, KIND_COUNT};
use vstd::prelude::*;

verus! {

/// Number of ranks that the display order tells apart.
pub const RANK_COUNT: usize = 4;

impl ParamKind {
    /// Every kind, in the order of registration.
    pub open spec fn all_kinds() -> Seq<ParamKind> {
        Seq::new(KIND_COUNT as nat, |i: int| Self::kind_at(i))
    }

    /// The rank of a kind in the display order: 0 for writable integers,
    /// 1 for writable binary32 numbers, 2 and 3 for the read-only ones.
    pub open spec fn sort_rank(self) -> int {
        (if self.access() == Access::ReadOnly {
            2int
        } else {
            0int
        }) + (if self.domain() is FloatRange {
            1int
        } else {
            0int
        })
    }

    /// The key by which the display order is increasing: the rank first,
    /// the position of registration second.
    pub open spec fn sort_key(self) -> int {
        self.sort_rank() * (KIND_COUNT as int) + self.spec_index()
    }

    /// Whether `s` holds every kind, in strictly increasing order of
    /// `sort_key`.
    pub open spec fn in_display_order(s: Seq<ParamKind>) -> bool {
        &&& forall|k: ParamKind| s.contains(k)
        &&& forall|i: int, j: int|
            0 <= i < j < s.len() ==> (#[trigger] s[i]).sort_key() < (#[trigger] s[j]).sort_key()
    }

    /// The kinds of rank `rank`, in the order of registration.
    pub open spec fn of_rank(rank: int) -> Seq<ParamKind> {
        Self::all_kinds().filter(|k: ParamKind| k.sort_rank() == rank)
    }

    /// Every kind, in display order: the kinds of each rank in the order
    /// of registration, the ranks one after the other.
    pub open spec fn display_order() -> Seq<ParamKind> {
        Self::of_rank(0) + Self::of_rank(1) + Self::of_rank(2) + Self::of_rank(3)
    }

    /// The position of a kind determines it, and conversely.
    pub proof fn lemma_index_determines_kind(self)
        ensures
            0 <= self.spec_index() < KIND_COUNT,
            Self::kind_at(self.spec_index()) == self,
    {
    }

    pub proof fn lemma_kind_at_position(i: int)
        requires
            0 <= i < KIND_COUNT,
        ensures
            Self::kind_at(i).spec_index() == i,
    {
    }

    /// A sequence in display order is as long as there are kinds.
    pub proof fn lemma_display_order_length(s: Seq<ParamKind>)
        requires
            Self::in_display_order(s),
        ensures
            s.len() == KIND_COUNT,
            s.no_duplicates(),
    {
        assert forall|i: int, j: int| 0 <= i < s.len() && 0 <= j < s.len() && i != j implies s[i]
            != s[j] by {
            if i < j {
                assert(s[i].sort_key() < s[j].sort_key());
            } else {
                assert(s[j].sort_key() < s[i].sort_key());
            }
        }
        let positions = s.map_values(|k: ParamKind| k.spec_index());
        assert forall|i: int, j: int|
            0 <= i < positions.len() && 0 <= j < positions.len() && i != j implies positions[i]
            != positions[j] by {
            s[i].lemma_index_determines_kind();
            s[j].lemma_index_determines_kind();
        }
        positions.unique_seq_to_set();
        vstd::set_lib::lemma_int_range(0, KIND_COUNT as int);
        assert forall|p: int| positions.to_set().contains(p) <==> 0 <= p < KIND_COUNT by {
            if positions.to_set().contains(p) {
                let i = choose|i: int| 0 <= i < positions.len() && positions[i] == p;
                s[i].lemma_index_determines_kind();
            }
            if 0 <= p < KIND_COUNT {
                let k = Self::kind_at(p);
                Self::lemma_kind_at_position(p);
                assert(s.contains(k));
                let i = choose|i: int| 0 <= i < s.len() && s[i] == k;
                assert(positions[i] == p);
            }
        }
        assert(positions.to_set() =~= vstd::set_lib::set_int_range(0, KIND_COUNT as int));
    }

    /// There is one display order: two sequences in display order are the
    /// same sequence.
    pub proof fn lemma_display_order_unique(a: Seq<ParamKind>, b: Seq<ParamKind>)
        requires
            Self::in_display_order(a),
            Self::in_display_order(b),
        ensures
            a == b,
    {
        Self::lemma_display_order_length(a);
        Self::lemma_display_order_length(b);
        Self::lemma_display_order_prefix(a, b, KIND_COUNT as int);
        assert(a =~= b);
    }

    proof fn lemma_display_order_prefix(a: Seq<ParamKind>, b: Seq<ParamKind>, n: int)
        requires
            Self::in_display_order(a),
            Self::in_display_order(b),
            a.len() == b.len(),
            0 <= n <= a.len(),
        ensures
            forall|i: int| 0 <= i < n ==> a[i] == b[i],
        decreases n,
    {
        if n > 0 {
            Self::lemma_display_order_prefix(a, b, n - 1);
            let i = n - 1;
            if a[i] != b[i] {
                assert(b.contains(a[i]));
                let j = choose|j: int| 0 <= j < b.len() && b[j] == a[i];
                assert(a.contains(b[i]));
                let h = choose|h: int| 0 <= h < a.len() && a[h] == b[i];
                if j < i {
                    assert(a[j].sort_key() < a[i].sort_key());
                } else if h < i {
                    assert(b[h].sort_key() < b[i].sort_key());
                } else {
                    assert(j > i && h > i);
                    assert(b[i].sort_key() < b[j].sort_key());
                    assert(a[i].sort_key() < a[h].sort_key());
                }
            }
        }
    }

    /// The display order is a stable arrangement of all kinds by rank: it
    /// holds each kind exactly once, the ranks never decrease along it,
    /// and kinds of one rank keep their order of registration.
    pub proof fn lemma_display_order_is_stable()
        ensures
            Self::display_order().len() == Self::all_kinds().len(),
            Self::display_order().to_multiset() == Self::all_kinds().to_multiset(),
            Self::display_order().no_duplicates(),
            forall|i: int, j: int|
                0 <= i < j < Self::display_order().len() ==> (
                #[trigger] Self::display_order()[i]).sort_rank() <= (
                #[trigger] Self::display_order()[j]).sort_rank(),
            forall|i: int, j: int|
                0 <= i < j < Self::display_order().len() && (
                #[trigger] Self::display_order()[i]).sort_rank() == (
                #[trigger] Self::display_order()[j]).sort_rank()
                    ==> Self::display_order()[i].spec_index()
                    < Self::display_order()[j].spec_index(),
    {
        let s = Self::display_order();
        Self::lemma_display_order();
        Self::lemma_display_order_length(s);
        let all = Self::all_kinds();
        assert forall|i: int, j: int| 0 <= i < j < s.len() implies (#[trigger] s[i]).sort_rank()
            <= (#[trigger] s[j]).sort_rank() by {
            s[i].lemma_index_determines_kind();
            s[j].lemma_index_determines_kind();
            assert(s[i].sort_key() < s[j].sort_key());
        }
        assert forall|i: int, j: int| 0 <= i < all.len() && 0 <= j < all.len() && i != j implies
            all[i] != all[j] by {
            Self::lemma_kind_at_position(i);
            Self::lemma_kind_at_position(j);
        }
        assert forall|k: ParamKind| s.to_multiset().count(k) == all.to_multiset().count(k) by {
            k.lemma_index_determines_kind();
            assert(all[k.spec_index()] == k);
            assert(all.contains(k));
            assert(s.contains(k));
            s.lemma_multiset_has_no_duplicates();
            all.lemma_multiset_has_no_duplicates();
            vstd::seq_lib::to_multiset_contains(s, k);
            vstd::seq_lib::to_multiset_contains(all, k);
        }
        assert(s.to_multiset() =~= all.to_multiset());
    }

    /// What is kept of a sequence keeps its order: where the positions of
    /// registration increase along `s`, they increase along what `keep`
    /// keeps of it, which are the items of `s` that `keep` holds of.
    pub proof fn lemma_filter_keeps_order(s: Seq<ParamKind>, keep: spec_fn(ParamKind) -> bool)
        requires
            forall|i: int, j: int|
                0 <= i < j < s.len() ==> (#[trigger] s[i]).spec_index() < (
                #[trigger] s[j]).spec_index(),
        ensures
            forall|i: int, j: int|
                0 <= i < j < s.filter(keep).len() ==> (#[trigger] s.filter(keep)[i]).spec_index()
                    < (#[trigger] s.filter(keep)[j]).spec_index(),
            forall|i: int|
                0 <= i < s.filter(keep).len() ==> s.contains(#[trigger] s.filter(keep)[i])
                    && keep(s.filter(keep)[i]),
            forall|i: int|
                0 <= i < s.len() && keep(s[i]) ==> s.filter(keep).contains(#[trigger] s[i]),
        decreases s.len(),
    {
        reveal(Seq::filter);
        if s.len() > 0 {
            let front = s.drop_last();
            Self::lemma_filter_keeps_order(front, keep);
            let kept = s.filter(keep);
            let kept_front = front.filter(keep);
            assert forall|i: int| 0 <= i < kept_front.len() implies s.contains(
                #[trigger] kept_front[i],
            ) && kept_front[i].spec_index() < s.last().spec_index() by {
                let x = kept_front[i];
                assert(front.contains(x));
                let j = choose|j: int| 0 <= j < front.len() && front[j] == x;
                assert(s[j] == x);
            }
            assert forall|i: int| 0 <= i < kept.len() implies s.contains(#[trigger] kept[i])
                && keep(kept[i]) by {
                if i < kept_front.len() {
                    assert(kept[i] == kept_front[i]);
                } else {
                    assert(kept[i] == s.last());
                    assert(s[s.len() - 1] == s.last());
                }
            }
            assert forall|i: int| 0 <= i < s.len() && keep(s[i]) implies kept.contains(
                #[trigger] s[i],
            ) by {
                if i < front.len() {
                    assert(front[i] == s[i]);
                    assert(kept_front.contains(front[i]));
                    let j = choose|j: int| 0 <= j < kept_front.len() && kept_front[j] == s[i];
                    assert(kept[j] == s[i]);
                } else {
                    assert(kept[kept.len() - 1] == s[i]);
                }
            }
        }
    }

    /// The positions of registration increase along `all_kinds`.
    pub proof fn lemma_all_kinds_in_order()
        ensures
            forall|i: int, j: int|
                0 <= i < j < Self::all_kinds().len() ==> (
                #[trigger] Self::all_kinds()[i]).spec_index() < (
                #[trigger] Self::all_kinds()[j]).spec_index(),
    {
        let all = Self::all_kinds();
        assert forall|i: int, j: int| 0 <= i < j < all.len() implies (
        #[trigger] all[i]).spec_index() < (#[trigger] all[j]).spec_index() by {
            Self::lemma_kind_at_position(i);
            Self::lemma_kind_at_position(j);
        }
    }

    /// The kinds of one rank: all of them, each of that rank, in the order
    /// of registration.
    proof fn lemma_of_rank(rank: int)
        ensures
            forall|i: int|
                0 <= i < Self::of_rank(rank).len() ==> (#[trigger] Self::of_rank(
                    rank,
                )[i]).sort_rank() == rank,
            forall|i: int, j: int|
                0 <= i < j < Self::of_rank(rank).len() ==> (#[trigger] Self::of_rank(
                    rank,
                )[i]).spec_index() < (#[trigger] Self::of_rank(rank)[j]).spec_index(),
            forall|k: ParamKind| k.sort_rank() == rank ==> Self::of_rank(rank).contains(k),
    {
        let all = Self::all_kinds();
        let keep = |k: ParamKind| k.sort_rank() == rank;
        Self::lemma_all_kinds_in_order();
        Self::lemma_filter_keeps_order(all, keep);
        assert forall|k: ParamKind| k.sort_rank() == rank implies Self::of_rank(rank).contains(
            k,
        ) by {
            k.lemma_index_determines_kind();
            assert(all[k.spec_index()] == k);
            assert(keep(all[k.spec_index()]));
        }
    }

    /// `display_order()` is in display order.
    pub proof fn lemma_display_order()
        ensures
            Self::in_display_order(Self::display_order()),
            Self::display_order().len() == KIND_COUNT,
    {
        Self::lemma_of_rank(0);
        Self::lemma_of_rank(1);
        Self::lemma_of_rank(2);
        Self::lemma_of_rank(3);
        let r0 = Self::of_rank(0);
        let r1 = Self::of_rank(1);
        let r2 = Self::of_rank(2);
        let r3 = Self::of_rank(3);
        let s = Self::display_order();
        assert forall|i: int| 0 <= i < s.len() implies (#[trigger] s[i]).sort_rank() == (if i
            < r0.len() {
            0int
        } else if i < r0.len() + r1.len() {
            1int
        } else if i < r0.len() + r1.len() + r2.len() {
            2int
        } else {
            3int
        }) by {
            if i < r0.len() {
                assert(s[i] == r0[i]);
            } else if i < r0.len() + r1.len() {
                assert(s[i] == r1[i - r0.len()]);
            } else if i < r0.len() + r1.len() + r2.len() {
                assert(s[i] == r2[i - r0.len() - r1.len()]);
            } else {
                assert(s[i] == r3[i - r0.len() - r1.len() - r2.len()]);
            }
        }
        assert forall|i: int, j: int| 0 <= i < j < s.len() implies (#[trigger] s[i]).sort_key() < (
        #[trigger] s[j]).sort_key() by {
            s[i].lemma_index_determines_kind();
            s[j].lemma_index_determines_kind();
            if s[i].sort_rank() == s[j].sort_rank() {
                if i < r0.len() {
                    assert(s[i] == r0[i] && s[j] == r0[j]);
                } else if i < r0.len() + r1.len() {
                    assert(s[i] == r1[i - r0.len()] && s[j] == r1[j - r0.len()]);
                } else if i < r0.len() + r1.len() + r2.len() {
                    assert(s[i] == r2[i - r0.len() - r1.len()] && s[j] == r2[j - r0.len()
                        - r1.len()]);
                } else {
                    assert(s[i] == r3[i - r0.len() - r1.len() - r2.len()] && s[j] == r3[j
                        - r0.len() - r1.len() - r2.len()]);
                }
            }
        }
        assert forall|k: ParamKind| s.contains(k) by {
            let r = k.sort_rank();
            if r == 0 {
                let i = choose|i: int| 0 <= i < r0.len() && r0[i] == k;
                assert(s[i] == k);
            } else if r == 1 {
                let i = choose|i: int| 0 <= i < r1.len() && r1[i] == k;
                assert(s[i + r0.len()] == k);
            } else if r == 2 {
                let i = choose|i: int| 0 <= i < r2.len() && r2[i] == k;
                assert(s[i + r0.len() + r1.len()] == k);
            } else {
                let i = choose|i: int| 0 <= i < r3.len() && r3[i] == k;
                assert(s[i + r0.len() + r1.len() + r2.len()] == k);
            }
        }
        Self::lemma_display_order_length(s);
    }

    /// The read-only kinds, in the order of registration.
    pub open spec fn read_only_kinds() -> Seq<ParamKind> {
        Self::all_kinds().filter(|k: ParamKind| k.access() == Access::ReadOnly)
    }

    /// The read-only kinds are the kinds whose access is read-only.
    pub proof fn lemma_read_only_kinds()
        ensures
            forall|k: ParamKind|
                Self::read_only_kinds().contains(k) <==> k.access() == Access::ReadOnly,
    {
        let all = Self::all_kinds();
        let keep = |k: ParamKind| k.access() == Access::ReadOnly;
        let kept = all.filter(keep);
        broadcast use vstd::seq_lib::group_filter_ensures;

        assert forall|k: ParamKind| kept.contains(k) <==> k.access() == Access::ReadOnly by {
            if kept.contains(k) {
                let i = choose|i: int| 0 <= i < kept.len() && kept[i] == k;
                assert(keep(kept[i]));
            }
            if k.access() == Access::ReadOnly {
                k.lemma_index_determines_kind();
                assert(all[k.spec_index()] == k);
                assert(keep(all[k.spec_index()]));
            }
        }
    }

    /// The read-only kinds, in the order of registration.
    pub fn read_only() -> (r: Vec<ParamKind>)
        ensures
            r@ == Self::read_only_kinds(),
    {
        let all = Self::all();
        let mut out: Vec<ParamKind> = Vec::new();
        let mut i: usize = 0;
        let ghost keep = |k: ParamKind| k.access() == Access::ReadOnly;
        proof {
            reveal(Seq::filter);
            assert(all@.take(0) =~= Seq::<ParamKind>::empty());
        }
        while i < all.len()
            invariant
                i <= all@.len(),
                all@ == Self::all_kinds(),
                keep == |k: ParamKind| k.access() == Access::ReadOnly,
                out@ == all@.take(i as int).filter(keep),
            decreases all@.len() - i,
        {
            let kind = all[i];
            proof {
                reveal(Seq::filter);
                assert(all@.take(i as int + 1).drop_last() =~= all@.take(i as int));
                assert(all@.take(i as int + 1).last() == kind);
            }
            if kind.def().access == Access::ReadOnly {
                out.push(kind);
            }
            i += 1;
        }
        proof {
            assert(all@.take(all@.len() as int) =~= all@);
        }
        out
    }

    /// Every kind, in the order of registration.
    pub fn all() -> (r: Vec<ParamKind>)
        ensures
            r@ == Self::all_kinds(),
    {
        let mut out: Vec<ParamKind> = Vec::new();
        let mut i: usize = 0;
        while i < KIND_COUNT
            invariant
                i <= KIND_COUNT,
                out@.len() == i,
                forall|j: int| 0 <= j < i ==> out@[j] == Self::kind_at(j),
            decreases KIND_COUNT - i,
        {
            match Self::from_index(i) {
                Some(kind) => {
                    out.push(kind);
                },
                None => {},
            }
            i += 1;
        }
        assert(out@ =~= Self::all_kinds());
        out
    }

    pub fn rank(&self) -> (r: usize)
        ensures
            r == self.sort_rank(),
            r < RANK_COUNT,
    {
        let def = self.def();
        let by_access: usize = match def.access {
            Access::ReadOnly => 2,
            Access::ReadWrite => 0,
        };
        let by_type: usize = match def.param_type {
            ParamType::FloatRange { .. } => 1,
            _ => 0,
        };
        by_access + by_type
    }

    /// Every kind, in display order.
    pub fn sorted() -> (r: Vec<ParamKind>)
        ensures
            r@ == Self::display_order(),
            Self::in_display_order(r@),
            r@.len() == KIND_COUNT,
    {
        let mut out: Vec<ParamKind> = Vec::new();
        let mut key: usize = 0;
        while key < RANK_COUNT * KIND_COUNT
            invariant
                key <= RANK_COUNT * KIND_COUNT,
                forall|i: int, j: int|
                    0 <= i < j < out@.len() ==> (#[trigger] out@[i]).sort_key() < (
                    #[trigger] out@[j]).sort_key(),
                forall|i: int| 0 <= i < out@.len() ==> (#[trigger] out@[i]).sort_key() < key,
                forall|k: ParamKind| k.sort_key() < key ==> out@.contains(k),
            decreases RANK_COUNT * KIND_COUNT - key,
        {
            let ghost before = out@;
            let candidate = Self::from_index(key % KIND_COUNT);
            let mut pushed: bool = false;
            match candidate {
                Some(kind) => {
                    if kind.rank() == key / KIND_COUNT {
                        proof {
                            Self::lemma_kind_at_position((key % KIND_COUNT) as int);
                            assert(kind.sort_key() == key);
                        }
                        out.push(kind);
                        pushed = true;
                    }
                },
                None => {},
            }
            proof {
                assert forall|k: ParamKind| k.sort_key() < key + 1 implies out@.contains(k) by {
                    if k.sort_key() < key {
                        assert(before.contains(k));
                        let i = choose|i: int| 0 <= i < before.len() && before[i] == k;
                        assert(out@[i] == k);
                    } else {
                        k.lemma_index_determines_kind();
                        assert(k.spec_index() == key % KIND_COUNT);
                        assert(k.sort_rank() == key / KIND_COUNT);
                        assert(pushed);
                        assert(out@[out@.len() - 1] == k);
                    }
                }
            }
            key += 1;
        }
        proof {
            assert forall|k: ParamKind| out@.contains(k) by {
                k.lemma_index_determines_kind();
                assert(k.sort_key() < RANK_COUNT * KIND_COUNT);
            }
            Self::lemma_display_order_length(out@);
            Self::lemma_display_order();
            Self::lemma_display_order_unique(out@, Self::display_order());
        }
        out
    }
}

} // verus!
