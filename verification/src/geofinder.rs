//! The admin geofinder: an in-memory index of admin polygons answering
//! point queries with the nested admin hierarchy, finest containing
//! zone first.
//!
//! Point-in-polygon is decided by ray casting: a point lies inside a
//! closed ring when a horizontal ray from it crosses an odd number of
//! edges. All geometry is exact integer arithmetic over microdegrees.

use std::sync::Arc;
use vstd::prelude::*;

use crate::coord::Coord;
use crate::places::admins_finest_first;
use crate::places::arc_clone;
use crate::places::spec_admin_rank;
use crate::places::Admin;

verus! {

/// Whether the horizontal ray from `p` towards increasing longitude
/// crosses the edge from `a` to `b`: the edge spans the ray's latitude,
/// and the crossing lies strictly to the east of `p`.
pub open spec fn edge_crosses(p: Coord, a: Coord, b: Coord) -> bool {
    &&& (a.lat_micro > p.lat_micro) != (b.lat_micro > p.lat_micro)
    &&& {
        let t = (b.lon_micro - a.lon_micro) * (p.lat_micro - a.lat_micro) - (p.lon_micro
            - a.lon_micro) * (b.lat_micro - a.lat_micro);
        if b.lat_micro > a.lat_micro {
            t > 0
        } else {
            t < 0
        }
    }
}

/// The vertex that follows vertex `i` on the closed ring.
pub open spec fn ring_next(ring: Seq<Coord>, i: int) -> Coord {
    if i + 1 == ring.len() {
        ring[0]
    } else {
        ring[i + 1]
    }
}

/// How many of the first `upto` edges of the closed ring the ray from
/// `p` crosses.
pub open spec fn crossing_count(p: Coord, ring: Seq<Coord>, upto: int) -> nat
    decreases upto,
{
    if upto <= 0 {
        0
    } else {
        crossing_count(p, ring, upto - 1) + (if edge_crosses(
            p,
            ring[upto - 1],
            ring_next(ring, upto - 1),
        ) {
            1nat
        } else {
            0nat
        })
    }
}

/// `p` lies inside the closed ring: the ray from it crosses an odd
/// number of edges.
pub open spec fn spec_point_in_polygon(p: Coord, ring: Seq<Coord>) -> bool {
    crossing_count(p, ring, ring.len() as int) % 2 == 1
}

/// Every vertex of the ring lies within the WGS84 bounds.
pub open spec fn ring_valid(ring: Seq<Coord>) -> bool {
    forall|i: int| 0 <= i < ring.len() ==> (#[trigger] ring[i]).valid()
}

/// Whether the ray from `p` crosses the edge from `a` to `b`.
fn edge_crosses_exec(p: Coord, a: Coord, b: Coord) -> (r: bool)
    requires
        p.valid(),
        a.valid(),
        b.valid(),
    ensures
        r == edge_crosses(p, a, b),
{
    if (a.lat_micro > p.lat_micro) == (b.lat_micro > p.lat_micro) {
        return false;
    }
    let dx1: i64 = b.lon_micro - a.lon_micro;
    let dy1: i64 = p.lat_micro - a.lat_micro;
    let dx2: i64 = p.lon_micro - a.lon_micro;
    let dy2: i64 = b.lat_micro - a.lat_micro;
    assert(-360_000_000 <= dx1 <= 360_000_000);
    assert(-180_000_000 <= dy1 <= 180_000_000);
    assert(-360_000_000 <= dx2 <= 360_000_000);
    assert(-180_000_000 <= dy2 <= 180_000_000);
    assert(-64_800_000_000_000_000 <= dx1 * dy1 <= 64_800_000_000_000_000) by (nonlinear_arith)
        requires
            -360_000_000 <= dx1 <= 360_000_000,
            -180_000_000 <= dy1 <= 180_000_000,
    ;
    assert(-64_800_000_000_000_000 <= dx2 * dy2 <= 64_800_000_000_000_000) by (nonlinear_arith)
        requires
            -360_000_000 <= dx2 <= 360_000_000,
            -180_000_000 <= dy2 <= 180_000_000,
    ;
    let t: i64 = dx1 * dy1 - dx2 * dy2;
    if b.lat_micro > a.lat_micro {
        t > 0
    } else {
        t < 0
    }
}

/// Whether `p` lies inside the closed polygon ring.
pub fn point_in_polygon(p: Coord, ring: &Vec<Coord>) -> (r: bool)
    requires
        p.valid(),
        ring_valid(ring@),
    ensures
        r == spec_point_in_polygon(p, ring@),
{
    let n = ring.len();
    if n == 0 {
        return false;
    }
    let mut inside = false;
    let mut i: usize = 0;
    while i < n
        invariant
            n == ring@.len(),
            n > 0,
            i <= n,
            p.valid(),
            ring_valid(ring@),
            inside == (crossing_count(p, ring@, i as int) % 2 == 1),
        decreases n - i,
    {
        let a = ring[i];
        let b = if i + 1 == n {
            ring[0]
        } else {
            ring[i + 1]
        };
        assert(b == ring_next(ring@, i as int));
        if edge_crosses_exec(p, a, b) {
            inside = !inside;
        }
        i += 1;
    }
    inside
}

/// The admins of the store whose boundary contains `c`, in store order.
pub open spec fn spec_geo_matches(admins: Seq<Arc<Admin>>, c: Coord) -> Seq<Arc<Admin>>
    decreases admins.len(),
{
    if admins.len() == 0 {
        Seq::empty()
    } else {
        let rest = spec_geo_matches(admins.drop_last(), c);
        match admins.last().boundary {
            Some(ring) => if spec_point_in_polygon(c, ring@) {
                rest.push(admins.last())
            } else {
                rest
            },
            None => rest,
        }
    }
}

/// How many times the admin `x` occurs in `s`.
pub open spec fn admin_count(s: Seq<Arc<Admin>>, x: Admin) -> nat
    decreases s.len(),
{
    if s.len() == 0 {
        0
    } else {
        admin_count(s.drop_last(), x) + (if s.last() == x {
            1nat
        } else {
            0nat
        })
    }
}

/// How many times the admin `x` occurs among the input admins that
/// carry a boundary.
pub open spec fn bounded_admin_count(s: Seq<Admin>, x: Admin) -> nat
    decreases s.len(),
{
    if s.len() == 0 {
        0
    } else {
        bounded_admin_count(s.drop_last(), x) + (if s.last() == x && s.last().boundary is Some {
            1nat
        } else {
            0nat
        })
    }
}

/// The in-memory spatial index over admin polygons. Built once from a
/// finite batch of admins; admins without a boundary are excluded; no
/// mutation after construction.
pub struct AdminGeoFinder {
    /// The held admins, each with a boundary, ordered finest-first.
    pub admins: Vec<Arc<Admin>>,
}

impl AdminGeoFinder {
    /// The store is well formed: every held admin has a boundary whose
    /// vertices are in bounds, and the store is ordered finest-first.
    pub open spec fn wf(&self) -> bool {
        &&& admins_finest_first(self.admins@)
        &&& forall|i: int|
            0 <= i < self.admins@.len() ==> ((#[trigger] self.admins@[i]).boundary matches Some(
                ring,
            ) && ring_valid(ring@))
    }

    /// Builds the index from a batch of admins: those with a boundary
    /// are kept, each exactly as often as it came, ordered finest-first.
    pub fn new(admins: Vec<Admin>) -> (r: AdminGeoFinder)
        requires
            forall|j: int|
                0 <= j < admins@.len() ==> ((#[trigger] admins@[j]).boundary matches Some(ring)
                    ==> ring_valid(ring@)),
        ensures
            r.wf(),
            forall|x: Admin| admin_count(r.admins@, x) == bounded_admin_count(admins@, x),
    {
        let ghost input = admins@;
        let mut admins = admins;
        let mut held: Vec<Arc<Admin>> = Vec::new();
        let mut i: usize = 0;
        let n = admins.len();
        assert(input.len() == n);
        while admins.len() > 0
            invariant
                input.len() == n,
                n <= usize::MAX,
                i + admins@.len() == n,
                admins@ =~= input.skip(i as int),
                held@.len() <= i,
                forall|j: int|
                    0 <= j < input.len() ==> ((#[trigger] input[j]).boundary matches Some(ring)
                        ==> ring_valid(ring@)),
                admins_finest_first(held@),
                forall|k: int|
                    0 <= k < held@.len() ==> ((#[trigger] held@[k]).boundary matches Some(ring)
                        && ring_valid(ring@)),
                forall|x: Admin|
                    admin_count(held@, x) == bounded_admin_count(input.take(i as int), x),
            decreases admins@.len(),
        {
            let ghost prev = input.take(i as int);
            let ghost prev_held = held@;
            let a = admins.remove(0);
            assert(a == input[i as int]);
            let ghost av = a;
            if a.boundary.is_some() {
                insert_sorted(&mut held, a);
                assert forall|k: int| 0 <= k < held@.len() implies ((#[trigger] held@[k]).boundary
                    matches Some(ring) && ring_valid(ring@)) by {
                    let y = choose|y: Arc<Admin>|
                        held@[k] == y && (prev_held.contains(y) || y == av);
                    if prev_held.contains(y) {
                        let w = choose|w: int| 0 <= w < prev_held.len() && prev_held[w] == y;
                        assert(prev_held[w].boundary matches Some(ring) && ring_valid(ring@));
                    } else {
                        assert(av.boundary matches Some(ring) && ring_valid(ring@));
                    }
                }
            }
            proof {
                let cur = input.take(i + 1 as int);
                assert(cur.drop_last() =~= prev);
                assert(cur.last() == input[i as int]);
                assert(admins@ =~= input.skip(i + 1 as int));
                assert forall|x: Admin| admin_count(held@, x) == bounded_admin_count(cur, x) by {
                    lemma_bounded_count_step(cur, x);
                }
            }
            i += 1;
        }
        proof {
            assert(input.take(n as int) =~= input);
        }
        AdminGeoFinder { admins: held }
    }

    /// The admins whose polygon contains the point, ordered finest
    /// containing zone first; empty when the point lies outside every
    /// known admin.
    pub fn get(&self, c: Coord) -> (r: Vec<Arc<Admin>>)
        requires
            self.wf(),
            c.valid(),
        ensures
            r@ =~= spec_geo_matches(self.admins@, c),
            admins_finest_first(r@),
    {
        let mut r: Vec<Arc<Admin>> = Vec::new();
        let mut i: usize = 0;
        while i < self.admins.len()
            invariant
                self.wf(),
                c.valid(),
                i <= self.admins@.len(),
                r@ =~= spec_geo_matches(self.admins@.take(i as int), c),
            decreases self.admins@.len() - i,
        {
            let ghost prev = self.admins@.take(i as int);
            match &self.admins[i].boundary {
                Some(ring) => {
                    if point_in_polygon(c, ring) {
                        r.push(arc_clone(&self.admins[i]));
                    }
                },
                None => {},
            }
            proof {
                let cur = self.admins@.take(i + 1 as int);
                assert(cur.drop_last() =~= prev);
                assert(cur.last() == self.admins@[i as int]);
            }
            i += 1;
        }
        proof {
            assert(self.admins@.take(self.admins@.len() as int) =~= self.admins@);
            lemma_geo_matches_sorted(self.admins@, c);
        }
        r
    }
}

/// Inserts an admin into a finest-first store, keeping the order and
/// adding exactly one occurrence of it.
fn insert_sorted(held: &mut Vec<Arc<Admin>>, a: Admin)
    requires
        admins_finest_first(old(held)@),
        old(held)@.len() < usize::MAX,
    ensures
        final(held)@.len() == old(held)@.len() + 1,
        admins_finest_first(final(held)@),
        forall|x: Admin|
            admin_count(final(held)@, x) == admin_count(old(held)@, x) + (if x == a {
                1int
            } else {
                0int
            }),
        forall|k: int|
            0 <= k < final(held)@.len() ==> exists|y: Arc<Admin>|
                #![trigger old(held)@.contains(y)]
                (#[trigger] final(held)@[k]) == y && (old(held)@.contains(y) || y == a),
{
    let rank_a = a.rank();
    let mut pos: usize = 0;
    while pos < held.len() && held[pos].rank() <= rank_a
        invariant
            pos <= held@.len(),
            held == old(held),
            rank_a == spec_admin_rank(a.zone_type),
            forall|k: int|
                0 <= k < pos ==> spec_admin_rank((#[trigger] held@[k]).zone_type) <= rank_a,
        decreases held@.len() - pos,
    {
        pos += 1;
    }
    assert(pos == held@.len() || spec_admin_rank(held@[pos as int].zone_type) > rank_a);
    let ghost before = held@;
    let arc = Arc::new(a);
    held.insert(pos, arc);
    proof {
        assert(held@ =~= before.insert(pos as int, arc));
        lemma_count_insert(before, pos as int, arc);
        assert forall|i: int, j: int| 0 <= i <= j < held@.len() implies spec_admin_rank(
            #[trigger] held@[i].zone_type,
        ) <= spec_admin_rank(#[trigger] held@[j].zone_type) by {
            if i < pos && j < pos {
            } else if i == pos && j == pos {
            } else if j == pos {
                assert(held@[i] == before[i]);
            } else if i == pos {
                assert(held@[j] == before[j - 1]);
                assert(j - 1 >= pos);
            } else if i < pos {
                assert(held@[i] == before[i] && held@[j] == before[j - 1]);
            } else {
                assert(held@[i] == before[i - 1] && held@[j] == before[j - 1]);
            }
        }
        // Mention the membership of the fresh handle, so that the
        // existential below can be instantiated with it.
        let arc_member = before.contains(arc);
        assert forall|k: int| 0 <= k < held@.len() implies exists|y: Arc<Admin>|
            #![trigger before.contains(y)]
            (#[trigger] held@[k]) == y && (before.contains(y) || y == arc) by {
            if k < pos {
                assert(held@[k] == before[k] && before.contains(before[k]));
            } else if k == pos {
                assert(held@[k] == arc);
            } else {
                assert(held@[k] == before[k - 1] && before.contains(before[k - 1]));
            }
        }
    }
}

/// Counting one occurrence more: inserting `v` raises `v`'s count by
/// one and leaves every other count unchanged.
proof fn lemma_count_insert(s: Seq<Arc<Admin>>, pos: int, v: Arc<Admin>)
    requires
        0 <= pos <= s.len(),
    ensures
        forall|x: Admin|
            admin_count(s.insert(pos, v), x) == admin_count(s, x) + (if x == v {
                1int
            } else {
                0int
            }),
    decreases s.len() - pos,
{
    let t = s.insert(pos, v);
    if pos == s.len() {
        assert forall|x: Admin|
            admin_count(t, x) == admin_count(s, x) + (if x == v {
                1int
            } else {
                0int
            }) by {
            assert(t.drop_last() =~= s);
            assert(t.last() == v);
        }
    } else {
        lemma_count_insert(s.drop_last(), pos, v);
        assert forall|x: Admin|
            admin_count(t, x) == admin_count(s, x) + (if x == v {
                1int
            } else {
                0int
            }) by {
            assert(t.drop_last() =~= s.drop_last().insert(pos, v));
            assert(t.last() == s.last());
            assert(admin_count(s.drop_last().insert(pos, v), x) == admin_count(s.drop_last(), x)
                + (if x == v {
                1int
            } else {
                0int
            }));
            assert(admin_count(t, x) == admin_count(t.drop_last(), x) + (if t.last() == x {
                1int
            } else {
                0int
            }));
            assert(admin_count(s, x) == admin_count(s.drop_last(), x) + (if s.last() == x {
                1int
            } else {
                0int
            }));
        }
    }
}

/// One more input admin: the counts of the kept admins advance by the
/// last element exactly when it carries a boundary.
proof fn lemma_bounded_count_step(cur: Seq<Admin>, x: Admin)
    requires
        cur.len() > 0,
    ensures
        bounded_admin_count(cur, x) == bounded_admin_count(cur.drop_last(), x) + (if cur.last()
            == x && cur.last().boundary is Some {
            1int
        } else {
            0int
        }),
{
}

/// Filtering a finest-first store by containment keeps it finest-first.
proof fn lemma_geo_matches_sorted(admins: Seq<Arc<Admin>>, c: Coord)
    requires
        admins_finest_first(admins),
    ensures
        admins_finest_first(spec_geo_matches(admins, c)),
        forall|i: int|
            0 <= i < spec_geo_matches(admins, c).len() ==> admins.contains(
                #[trigger] spec_geo_matches(admins, c)[i],
            ),
    decreases admins.len(),
{
    if admins.len() == 0 {
    } else {
        assert(admins_finest_first(admins.drop_last()));
        lemma_geo_matches_sorted(admins.drop_last(), c);
        let rest = spec_geo_matches(admins.drop_last(), c);
        let whole = spec_geo_matches(admins, c);
        assert forall|i: int| 0 <= i < whole.len() implies admins.contains(#[trigger] whole[i]) by {
            if i < rest.len() {
                assert(admins.drop_last().contains(rest[i]));
                let w = choose|w: int|
                    0 <= w < admins.drop_last().len() && admins.drop_last()[w] == rest[i];
                assert(admins[w] == rest[i]);
            } else {
                assert(whole[i] == admins.last());
                assert(admins[admins.len() - 1] == admins.last());
            }
        }
        assert forall|i: int, j: int| 0 <= i <= j < whole.len() implies spec_admin_rank(
            #[trigger] whole[i].zone_type,
        ) <= spec_admin_rank(#[trigger] whole[j].zone_type) by {
            if j < rest.len() {
            } else if whole.len() > rest.len() {
                assert(whole[j] == admins.last());
                if i < rest.len() {
                    assert(admins.drop_last().contains(rest[i]));
                    let w = choose|w: int|
                        0 <= w < admins.drop_last().len() && admins.drop_last()[w] == rest[i];
                    assert(admins[w] == whole[i]);
                    assert(spec_admin_rank(admins[w].zone_type) <= spec_admin_rank(
                        admins[admins.len() - 1].zone_type,
                    ));
                }
            }
        }
    }
}

} // verus!
