//! The set of pickups ("memories") of one round.
//!
//! Pickups are identified by id and never re-added within a round: the only
//! mutation is [`CollectibleSet::collect_near`], which permanently removes
//! every pickup within the pickup radius of the player.

use crate::geom::{COORD_LIMIT, Vec2, Vec2Model, in_coord_range, within_distance};
use vstd::prelude::*;

verus! {

/// Radius within which the player collects a pickup, in milliunits
/// (26 units).
pub const PICKUP_RADIUS: i64 = 26_000;

/// One pickup: a fixed position and an id unique within its round.
#[derive(Clone, Copy, PartialEq, Eq, Structural, Debug)]
pub struct Pickup {
    pub id: u32,
    pub pos: Vec2,
}

/// Whether a pickup survives a collection pass at `player`: it does exactly
/// when it lies strictly outside distance `r` of the player.
pub open spec fn survives(pk: Pickup, player: Vec2Model, r: int) -> bool {
    !within_distance(pk.pos@, player, r)
}

/// The predicate [`CollectibleSet::collect_near`] filters with.
pub open spec fn keep_fn(player: Vec2Model, r: int) -> spec_fn(Pickup) -> bool {
    |pk: Pickup| survives(pk, player, r)
}

/// Every element of a filtered sequence already occurs in the original.
pub proof fn lemma_filter_elems_in_original<A>(s: Seq<A>, f: spec_fn(A) -> bool)
    ensures
        forall|i: int|
            0 <= i < s.filter(f).len() ==> s.contains(#[trigger] s.filter(f)[i]),
    decreases s.len(),
{
    reveal(Seq::filter);
    if s.len() > 0 {
        let d = s.drop_last();
        lemma_filter_elems_in_original(d, f);
        assert forall|i: int| 0 <= i < s.filter(f).len() implies s.contains(
            #[trigger] s.filter(f)[i],
        ) by {
            if i < d.filter(f).len() {
                let x = d.filter(f)[i];
                let j = choose|j: int| 0 <= j < d.len() && d[j] == x;
                assert(s[j] == x);
            } else {
                assert(s.filter(f)[i] == s.last());
                assert(s[s.len() - 1] == s.last());
            }
        }
    }
}

/// Filtering keeps pickup ids pairwise distinct.
pub proof fn lemma_filter_keeps_distinct_ids(s: Seq<Pickup>, f: spec_fn(Pickup) -> bool)
    requires
        forall|i: int, j: int| 0 <= i < j < s.len() ==> s[i].id != s[j].id,
    ensures
        forall|i: int, j: int|
            0 <= i < j < s.filter(f).len() ==> s.filter(f)[i].id != s.filter(f)[j].id,
    decreases s.len(),
{
    reveal(Seq::filter);
    if s.len() > 0 {
        let d = s.drop_last();
        assert(forall|i: int, j: int| 0 <= i < j < d.len() ==> d[i].id != d[j].id);
        lemma_filter_keeps_distinct_ids(d, f);
        lemma_filter_elems_in_original(d, f);
        if f(s.last()) {
            assert forall|i: int, j: int|
                0 <= i < j < s.filter(f).len() implies s.filter(f)[i].id != s.filter(
                f,
            )[j].id by {
                if j < s.filter(f).len() - 1 {
                    assert(s.filter(f)[i] == d.filter(f)[i]);
                    assert(s.filter(f)[j] == d.filter(f)[j]);
                } else {
                    let x = d.filter(f)[i];
                    assert(d.contains(x));
                    let k = choose|k: int| 0 <= k < d.len() && d[k] == x;
                    assert(s[k] == x);
                    assert(s.filter(f)[j] == s.last());
                    assert(s[s.len() - 1] == s.last());
                }
            }
        }
    }
}

/// The pickups still present in one round. Owned and mutated only by the
/// round state machine; pickups leave and never return.
#[derive(Clone, Debug)]
pub struct CollectibleSet {
    items: Vec<Pickup>,
}

impl View for CollectibleSet {
    type V = Seq<Pickup>;

    closed spec fn view(&self) -> Seq<Pickup> {
        self.items@
    }
}

impl CollectibleSet {
    /// All positions in coordinate range and all ids pairwise distinct.
    pub open spec fn wf(&self) -> bool {
        &&& forall|i: int| 0 <= i < self@.len() ==> in_coord_range(#[trigger] self@[i].pos@)
        &&& forall|i: int, j: int| 0 <= i < j < self@.len() ==> self@[i].id != self@[j].id
    }

    /// Populate a fresh set from a list of positions, giving the pickup at
    /// index `i` the id `i`.
    pub fn from_positions(positions: &Vec<Vec2>) -> (s: CollectibleSet)
        requires
            positions@.len() <= u32::MAX,
            forall|i: int| 0 <= i < positions@.len() ==> in_coord_range(#[trigger] positions@[i]@),
        ensures
            s@.len() == positions@.len(),
            forall|i: int|
                0 <= i < positions@.len() ==> #[trigger] s@[i] == (Pickup {
                    id: i as u32,
                    pos: positions@[i],
                }),
            s.wf(),
    {
        let mut items: Vec<Pickup> = Vec::new();
        let n = positions.len();
        let mut i: usize = 0;
        while i < n
            invariant
                i <= n,
                n == positions@.len() <= u32::MAX,
                items@.len() == i,
                forall|k: int|
                    0 <= k < i ==> #[trigger] items@[k] == (Pickup {
                        id: k as u32,
                        pos: positions@[k],
                    }),
            decreases n - i,
        {
            items.push(Pickup { id: i as u32, pos: positions[i] });
            i = i + 1;
        }
        CollectibleSet { items }
    }

    /// How many pickups remain.
    pub fn len(&self) -> (n: usize)
        ensures
            n == self@.len(),
    {
        self.items.len()
    }

    /// True when no pickups remain.
    pub fn is_exhausted(&self) -> (b: bool)
        ensures
            b == (self@.len() == 0),
    {
        self.items.len() == 0
    }

    /// The remaining pickups' positions, in their stored order.
    pub fn positions(&self) -> (ps: Vec<Vec2>)
        ensures
            ps@ == self@.map_values(|pk: Pickup| pk.pos),
    {
        let mut ps: Vec<Vec2> = Vec::new();
        let n = self.items.len();
        let mut i: usize = 0;
        while i < n
            invariant
                i <= n,
                n == self@.len(),
                ps@.len() == i,
                forall|k: int| 0 <= k < i ==> #[trigger] ps@[k] == self@[k].pos,
            decreases n - i,
        {
            ps.push(self.items[i].pos);
            i = i + 1;
        }
        proof {
            assert(ps@ =~= self@.map_values(|pk: Pickup| pk.pos));
        }
        ps
    }

    /// Remove every pickup within Euclidean distance `radius` of `player`
    /// and return how many were removed. Exactly the pickups strictly
    /// outside the radius survive, in their previous order; the set never
    /// grows and removed pickups never reappear.
    pub fn collect_near(&mut self, player: Vec2, radius: i64) -> (count: usize)
        requires
            old(self).wf(),
            in_coord_range(player@),
            0 <= radius <= COORD_LIMIT,
        ensures
            final(self)@ == old(self)@.filter(keep_fn(player@, radius as int)),
            count == old(self)@.len() - final(self)@.len(),
            final(self)@.len() <= old(self)@.len(),
            final(self).wf(),
    {
        let ghost orig = self.items@;
        let ghost f = keep_fn(player@, radius as int);
        let mut kept: Vec<Pickup> = Vec::new();
        let n = self.items.len();
        let mut i: usize = 0;
        proof {
            assert(orig.subrange(0, 0).filter(f) =~= Seq::<Pickup>::empty()) by {
                reveal(Seq::filter);
            }
        }
        while i < n
            invariant
                i <= n,
                n == orig.len(),
                self@ == orig,
                self.wf(),
                in_coord_range(player@),
                0 <= radius <= COORD_LIMIT,
                f == keep_fn(player@, radius as int),
                kept@ == orig.subrange(0, i as int).filter(f),
            decreases n - i,
        {
            let pk = self.items[i];
            if !crate::geom::within_distance_check(pk.pos, player, radius) {
                kept.push(pk);
            }
            proof {
                let pre = orig.subrange(0, i as int);
                let one = seq![orig[i as int]];
                assert(orig.subrange(0, i + 1) =~= pre + one);
                Seq::filter_distributes_over_add(pre, one, f);
                assert(one.filter(f) =~= if f(orig[i as int]) { one } else {
                    Seq::<Pickup>::empty()
                }) by {
                    reveal_with_fuel(Seq::filter, 2);
                    assert(one.drop_last() =~= Seq::<Pickup>::empty());
                    assert(one.drop_last().filter(f) =~= Seq::<Pickup>::empty());
                    assert(one.last() == orig[i as int]);
                }
                if f(orig[i as int]) {
                    assert(pre.filter(f) + one =~= pre.filter(f).push(orig[i as int]));
                } else {
                    assert(pre.filter(f) + one.filter(f) =~= pre.filter(f));
                }
            }
            i = i + 1;
        }
        proof {
            assert(orig.subrange(0, n as int) =~= orig);
            orig.lemma_filter_len(f);
            lemma_filter_elems_in_original(orig, f);
            lemma_filter_keeps_distinct_ids(orig, f);
        }
        let count = n - kept.len();
        self.items = kept;
        count
    }
}

/// Collection is monotonic: a collection pass never grows the set, and
/// every surviving pickup was already present before the pass — removed
/// pickups never reappear.
pub proof fn lemma_collect_monotonic(s: Seq<Pickup>, player: Vec2Model, r: int)
    ensures
        s.filter(keep_fn(player, r)).len() <= s.len(),
        forall|i: int|
            0 <= i < s.filter(keep_fn(player, r)).len() ==> s.contains(
                #[trigger] s.filter(keep_fn(player, r))[i],
            ),
{
    s.lemma_filter_len(keep_fn(player, r));
    lemma_filter_elems_in_original(s, keep_fn(player, r));
}

} // verus!
