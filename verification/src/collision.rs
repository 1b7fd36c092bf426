//! The collision-query service: axis-aligned rectangles around integer
//! centre points, rebuilt by the host each tick. A static check finds the
//! first registered rectangle that overlaps a probe; a moving check sweeps
//! the probe along one tick of velocity, sampled at milli-tick resolution,
//! and reports the earliest overlap.
//!
//! Flag bits follow the host's convention: `0x1000` marks a physical actor,
//! `0x0100` a hazard.

use vstd::prelude::*;

verus! {

/// An axis-aligned rectangle: full width and height in milli-units.
#[derive(Copy, Clone, PartialEq, Eq, Structural, Debug)]
pub struct CollisionShape {
    pub w_milli: i64,
    pub h_milli: i64,
}

/// One registered collider.
#[derive(Copy, Clone, PartialEq, Eq, Structural, Debug)]
pub struct CollisionQueryEntry {
    pub id: u64,
    pub x_milli: i64,
    pub y_milli: i64,
    pub shape: CollisionShape,
    pub flags: u32,
}

/// Restricts a query to entries with an overlapping flag bit, excluding one
/// entity (usually the probe itself).
#[derive(Copy, Clone, PartialEq, Eq, Structural, Debug)]
pub struct CollisionFilter {
    pub exclude_id: u64,
    pub flags: u32,
}

/// A hit: the collider that was struck, and for moving checks the
/// milli-tick time of first contact.
#[derive(Copy, Clone, PartialEq, Eq, Structural, Debug)]
pub struct CollisionHit {
    pub id: u64,
    pub x_milli: i64,
    pub y_milli: i64,
    pub shape: CollisionShape,
    pub collide_time_milli: i64,
}

/// Coordinates stay well inside this bound so sweep arithmetic cannot
/// overflow.
pub const COORD_BOUND: i64 = 0x4000_0000;

pub open spec fn entry_in_bounds(e: CollisionQueryEntry) -> bool {
    &&& -COORD_BOUND < e.x_milli < COORD_BOUND
    &&& -COORD_BOUND < e.y_milli < COORD_BOUND
    &&& 0 <= e.shape.w_milli < COORD_BOUND
    &&& 0 <= e.shape.h_milli < COORD_BOUND
}

/// Two rectangles overlap when they intersect on both axes with positive
/// area: the centre distance, doubled, is under the sum of the extents.
pub open spec fn spec_overlaps(
    x1: int,
    y1: int,
    s1: CollisionShape,
    x2: int,
    y2: int,
    s2: CollisionShape,
) -> bool {
    &&& 2 * abs_int(x1 - x2) < s1.w_milli + s2.w_milli
    &&& 2 * abs_int(y1 - y2) < s1.h_milli + s2.h_milli
}

pub open spec fn abs_int(v: int) -> int {
    if v >= 0 {
        v
    } else {
        -v
    }
}

/// Whether `entry` is eligible under `filter`: not the excluded entity, and
/// sharing at least one flag bit.
pub open spec fn spec_passes(entry: CollisionQueryEntry, filter: Option<CollisionFilter>) -> bool {
    match filter {
        Option::Some(f) => entry.id != f.exclude_id && (entry.flags & f.flags) != 0,
        Option::None => true,
    }
}

/// The probe at `(x + vx * t / 1000, y + vy * t / 1000)`, sampled on the
/// milli-tick grid, overlaps `entry`.
pub open spec fn spec_overlaps_at(
    x: int,
    y: int,
    vx: int,
    vy: int,
    s: CollisionShape,
    entry: CollisionQueryEntry,
    t: int,
) -> bool {
    &&& 2 * abs_int(1000 * (x - entry.x_milli) + vx * t) < 1000 * (s.w_milli
        + entry.shape.w_milli)
    &&& 2 * abs_int(1000 * (y - entry.y_milli) + vy * t) < 1000 * (s.h_milli
        + entry.shape.h_milli)
}

/// The index of the first entry at or after `k` that overlaps the still
/// probe and passes the filter.
pub open spec fn spec_first_passing_from(
    entries: Seq<CollisionQueryEntry>,
    x: int,
    y: int,
    shape: CollisionShape,
    filter: Option<CollisionFilter>,
    k: int,
) -> Option<int>
    decreases entries.len() - k,
{
    if k < 0 || k >= entries.len() {
        Option::None
    } else if spec_overlaps(
        x,
        y,
        shape,
        entries[k].x_milli as int,
        entries[k].y_milli as int,
        entries[k].shape,
    ) && spec_passes(entries[k], filter) {
        Option::Some(k)
    } else {
        spec_first_passing_from(entries, x, y, shape, filter, k + 1)
    }
}

/// A first-passing index is always a valid index into the entries.
pub proof fn lemma_first_passing_in_range(
    entries: Seq<CollisionQueryEntry>,
    x: int,
    y: int,
    shape: CollisionShape,
    filter: Option<CollisionFilter>,
    k: int,
)
    requires
        spec_first_passing_from(entries, x, y, shape, filter, k) is Some,
    ensures
        k <= spec_first_passing_from(entries, x, y, shape, filter, k)->0 < entries.len(),
    decreases entries.len() - k,
{
    if k < 0 || k >= entries.len() {
    } else if spec_overlaps(
        x,
        y,
        shape,
        entries[k].x_milli as int,
        entries[k].y_milli as int,
        entries[k].shape,
    ) && spec_passes(entries[k], filter) {
    } else {
        lemma_first_passing_in_range(entries, x, y, shape, filter, k + 1);
    }
}

/// The index of the first entry at or after `k` that the swept probe
/// overlaps at milli-tick `t` and that passes the filter.
pub open spec fn spec_first_hit_at_from(
    entries: Seq<CollisionQueryEntry>,
    x: int,
    y: int,
    vx: int,
    vy: int,
    shape: CollisionShape,
    filter: Option<CollisionFilter>,
    t: int,
    k: int,
) -> Option<int>
    decreases entries.len() - k,
{
    if k < 0 || k >= entries.len() {
        Option::None
    } else if spec_overlaps_at(x, y, vx, vy, shape, entries[k], t) && spec_passes(
        entries[k],
        filter,
    ) {
        Option::Some(k)
    } else {
        spec_first_hit_at_from(entries, x, y, vx, vy, shape, filter, t, k + 1)
    }
}

/// The rebuilt-per-tick list of colliders.
pub struct CollisionQuery {
    pub entries: Vec<CollisionQueryEntry>,
}

impl CollisionQuery {
    pub fn new() -> (r: CollisionQuery)
        ensures
            r.entries@.len() == 0,
    {
        CollisionQuery { entries: Vec::new() }
    }

    pub fn clear(&mut self)
        ensures
            final(self).entries@.len() == 0,
    {
        self.entries.clear();
    }

    pub fn push(&mut self, entry: CollisionQueryEntry)
        ensures
            final(self).entries@ == old(self).entries@.push(entry),
    {
        self.entries.push(entry);
    }

    /// The first registered collider that overlaps the probe and passes
    /// the filter, if any: exactly the entry `spec_first_passing_from`
    /// picks, in registration order, at collide time zero.
    pub fn check(
        &self,
        x_milli: i64,
        y_milli: i64,
        shape: CollisionShape,
        filter: Option<CollisionFilter>,
    ) -> (r: Option<CollisionHit>)
        requires
            -COORD_BOUND < x_milli < COORD_BOUND,
            0 <= shape.w_milli < COORD_BOUND,
            0 <= shape.h_milli < COORD_BOUND,
            -COORD_BOUND < y_milli < COORD_BOUND,
            forall|i: int| 0 <= i < self.entries@.len() ==> entry_in_bounds(#[trigger] self.entries@[i]),
        ensures
            match spec_first_passing_from(
                self.entries@,
                x_milli as int,
                y_milli as int,
                shape,
                filter,
                0,
            ) {
                Option::Some(i) => r == Option::Some(
                    CollisionHit {
                        id: self.entries@[i].id,
                        x_milli: self.entries@[i].x_milli,
                        y_milli: self.entries@[i].y_milli,
                        shape: self.entries@[i].shape,
                        collide_time_milli: 0i64,
                    },
                ),
                Option::None => r is None,
            },
    {
        let ghost probe_x = x_milli as int;
        let ghost probe_y = y_milli as int;
        let mut i: usize = 0;
        while i < self.entries.len()
            invariant
                i <= self.entries@.len(),
                -COORD_BOUND < x_milli < COORD_BOUND,
                -COORD_BOUND < y_milli < COORD_BOUND,
                0 <= shape.w_milli < COORD_BOUND,
                0 <= shape.h_milli < COORD_BOUND,
                probe_x == x_milli as int,
                probe_y == y_milli as int,
                forall|j: int|
                    0 <= j < self.entries@.len() ==> entry_in_bounds(#[trigger] self.entries@[j]),
                spec_first_passing_from(self.entries@, probe_x, probe_y, shape, filter, 0)
                    == spec_first_passing_from(self.entries@, probe_x, probe_y, shape, filter, i as int),
            decreases self.entries@.len() - i,
        {
            let entry = self.entries[i];
            let found = rects_overlap(
                x_milli,
                y_milli,
                shape,
                entry.x_milli,
                entry.y_milli,
                entry.shape,
            ) && passes_filter(&entry, &filter);
            proof {
                assert(self.entries@[i as int] == entry);
                reveal_with_fuel(spec_first_passing_from, 2);
                if found {
                    assert(spec_first_passing_from(
                        self.entries@,
                        probe_x,
                        probe_y,
                        shape,
                        filter,
                        i as int,
                    ) == Option::Some(i as int));
                } else {
                    assert(spec_first_passing_from(
                        self.entries@,
                        probe_x,
                        probe_y,
                        shape,
                        filter,
                        i as int,
                    ) == spec_first_passing_from(
                        self.entries@,
                        probe_x,
                        probe_y,
                        shape,
                        filter,
                        i + 1,
                    ));
                }
            }
            if found {
                return Option::Some(
                    CollisionHit {
                        id: entry.id,
                        x_milli: entry.x_milli,
                        y_milli: entry.y_milli,
                        shape: entry.shape,
                        collide_time_milli: 0,
                    },
                );
            }
            i = i + 1;
        }
        proof {
            reveal_with_fuel(spec_first_passing_from, 2);
            assert(spec_first_passing_from(
                self.entries@,
                probe_x,
                probe_y,
                shape,
                filter,
                self.entries@.len() as int,
            ) is None);
        }
        Option::None
    }

    /// Sweeps the probe along one tick of velocity and reports the earliest
    /// milli-tick at which it overlaps an eligible collider. `None` means
    /// the whole motion is free.
    pub fn check_moving(
        &self,
        x_milli: i64,
        y_milli: i64,
        vx_milli: i64,
        vy_milli: i64,
        shape: CollisionShape,
        filter: Option<CollisionFilter>,
    ) -> (r: Option<CollisionHit>)
        requires
            -COORD_BOUND < x_milli < COORD_BOUND,
            -COORD_BOUND < y_milli < COORD_BOUND,
            -1_000_000 <= vx_milli <= 1_000_000,
            -1_000_000 <= vy_milli <= 1_000_000,
            0 <= shape.w_milli < COORD_BOUND,
            0 <= shape.h_milli < COORD_BOUND,
            forall|i: int| 0 <= i < self.entries@.len() ==> entry_in_bounds(#[trigger] self.entries@[i]),
        ensures
            match r {
                Option::Some(hit) => {
                    &&& 0 <= hit.collide_time_milli <= 1000
                    &&& match spec_first_hit_at_from(
                        self.entries@,
                        x_milli as int,
                        y_milli as int,
                        vx_milli as int,
                        vy_milli as int,
                        shape,
                        filter,
                        hit.collide_time_milli as int,
                        0,
                    ) {
                        Option::Some(i) => hit == (CollisionHit {
                            id: self.entries@[i].id,
                            x_milli: self.entries@[i].x_milli,
                            y_milli: self.entries@[i].y_milli,
                            shape: self.entries@[i].shape,
                            collide_time_milli: hit.collide_time_milli,
                        }),
                        Option::None => false,
                    }
                    &&& exists|i: int|
                        {
                            &&& 0 <= i < self.entries@.len()
                            &&& (#[trigger] self.entries@[i]).id == hit.id
                            &&& spec_overlaps_at(
                                x_milli as int,
                                y_milli as int,
                                vx_milli as int,
                                vy_milli as int,
                                shape,
                                self.entries@[i],
                                hit.collide_time_milli as int,
                            )
                            &&& spec_passes(self.entries@[i], filter)
                        }
                    &&& forall|i: int, t: int|
                        0 <= i < self.entries@.len() && 0 <= t < hit.collide_time_milli
                            ==> !(#[trigger] spec_overlaps_at(
                            x_milli as int,
                            y_milli as int,
                            vx_milli as int,
                            vy_milli as int,
                            shape,
                            self.entries@[i],
                            t,
                        ) && spec_passes(self.entries@[i], filter))
                },
                Option::None => forall|i: int, t: int|
                    0 <= i < self.entries@.len() && 0 <= t <= 1000 ==> !(#[trigger] spec_overlaps_at(
                        x_milli as int,
                        y_milli as int,
                        vx_milli as int,
                        vy_milli as int,
                        shape,
                        self.entries@[i],
                        t,
                    ) && spec_passes(self.entries@[i], filter)),
            },
    {
        let mut t: i64 = 0;
        while t <= 1000
            invariant
                0 <= t <= 1001,
                -COORD_BOUND < x_milli < COORD_BOUND,
                -COORD_BOUND < y_milli < COORD_BOUND,
                -1_000_000 <= vx_milli <= 1_000_000,
                -1_000_000 <= vy_milli <= 1_000_000,
                0 <= shape.w_milli < COORD_BOUND,
                0 <= shape.h_milli < COORD_BOUND,
                forall|i: int|
                    0 <= i < self.entries@.len() ==> entry_in_bounds(#[trigger] self.entries@[i]),
                forall|i: int, u: int|
                    0 <= i < self.entries@.len() && 0 <= u < t ==> !(#[trigger] spec_overlaps_at(
                        x_milli as int,
                        y_milli as int,
                        vx_milli as int,
                        vy_milli as int,
                        shape,
                        self.entries@[i],
                        u,
                    ) && spec_passes(self.entries@[i], filter)),
            decreases 1001 - t,
        {
            let mut i: usize = 0;
            while i < self.entries.len()
                invariant
                    0 <= t <= 1000,
                    i <= self.entries@.len(),
                    -COORD_BOUND < x_milli < COORD_BOUND,
                    -COORD_BOUND < y_milli < COORD_BOUND,
                    -1_000_000 <= vx_milli <= 1_000_000,
                    -1_000_000 <= vy_milli <= 1_000_000,
                    0 <= shape.w_milli < COORD_BOUND,
                    0 <= shape.h_milli < COORD_BOUND,
                    forall|j: int|
                        0 <= j < self.entries@.len() ==> entry_in_bounds(
                            #[trigger] self.entries@[j],
                        ),
                    forall|j: int|
                        0 <= j < i ==> !(spec_overlaps_at(
                            x_milli as int,
                            y_milli as int,
                            vx_milli as int,
                            vy_milli as int,
                            shape,
                            #[trigger] self.entries@[j],
                            t as int,
                        ) && spec_passes(self.entries@[j], filter)),
                    spec_first_hit_at_from(
                        self.entries@,
                        x_milli as int,
                        y_milli as int,
                        vx_milli as int,
                        vy_milli as int,
                        shape,
                        filter,
                        t as int,
                        0,
                    ) == spec_first_hit_at_from(
                        self.entries@,
                        x_milli as int,
                        y_milli as int,
                        vx_milli as int,
                        vy_milli as int,
                        shape,
                        filter,
                        t as int,
                        i as int,
                    ),
                    forall|j: int, u: int|
                        0 <= j < self.entries@.len() && 0 <= u < t ==> !(
                        #[trigger] spec_overlaps_at(
                            x_milli as int,
                            y_milli as int,
                            vx_milli as int,
                            vy_milli as int,
                            shape,
                            self.entries@[j],
                            u,
                        ) && spec_passes(self.entries@[j], filter)),
                decreases self.entries@.len() - i,
            {
                let entry = self.entries[i];
                let found = overlaps_at(x_milli, y_milli, vx_milli, vy_milli, shape, &entry, t)
                    && passes_filter(&entry, &filter);
                proof {
                    assert(self.entries@[i as int] == entry);
                    reveal_with_fuel(spec_first_hit_at_from, 2);
                    if found {
                        assert(spec_passes(self.entries@[i as int], filter));
                        assert(spec_overlaps_at(
                            x_milli as int,
                            y_milli as int,
                            vx_milli as int,
                            vy_milli as int,
                            shape,
                            self.entries@[i as int],
                            t as int,
                        ));
                        assert(spec_first_hit_at_from(
                            self.entries@,
                            x_milli as int,
                            y_milli as int,
                            vx_milli as int,
                            vy_milli as int,
                            shape,
                            filter,
                            t as int,
                            i as int,
                        ) == Option::Some(i as int));
                    } else {
                        assert(spec_first_hit_at_from(
                            self.entries@,
                            x_milli as int,
                            y_milli as int,
                            vx_milli as int,
                            vy_milli as int,
                            shape,
                            filter,
                            t as int,
                            i as int,
                        ) == spec_first_hit_at_from(
                            self.entries@,
                            x_milli as int,
                            y_milli as int,
                            vx_milli as int,
                            vy_milli as int,
                            shape,
                            filter,
                            t as int,
                            i + 1,
                        ));
                    }
                }
                if found {
                    return Option::Some(
                        CollisionHit {
                            id: entry.id,
                            x_milli: entry.x_milli,
                            y_milli: entry.y_milli,
                            shape: entry.shape,
                            collide_time_milli: t,
                        },
                    );
                }
                i = i + 1;
            }
            t = t + 1;
        }
        Option::None
    }
}

/// The ids of all entries of `entries` that overlap the probe and pass
/// the filter, in registration order.
pub open spec fn spec_hit_ids(
    entries: Seq<CollisionQueryEntry>,
    x: int,
    y: int,
    shape: CollisionShape,
    filter: Option<CollisionFilter>,
) -> Seq<u64>
    decreases entries.len(),
{
    if entries.len() == 0 {
        Seq::empty()
    } else {
        let rest = spec_hit_ids(entries.drop_last(), x, y, shape, filter);
        let e = entries.last();
        if spec_overlaps(x, y, shape, e.x_milli as int, e.y_milli as int, e.shape)
            && spec_passes(e, filter) {
            rest.push(e.id)
        } else {
            rest
        }
    }
}

impl CollisionQuery {
    /// Every collider the probe overlaps, under the filter, in
    /// registration order.
    pub fn check_all(
        &self,
        x_milli: i64,
        y_milli: i64,
        shape: CollisionShape,
        filter: Option<CollisionFilter>,
    ) -> (r: Vec<u64>)
        requires
            -COORD_BOUND < x_milli < COORD_BOUND,
            -COORD_BOUND < y_milli < COORD_BOUND,
            0 <= shape.w_milli < COORD_BOUND,
            0 <= shape.h_milli < COORD_BOUND,
            forall|i: int| 0 <= i < self.entries@.len() ==> entry_in_bounds(#[trigger] self.entries@[i]),
        ensures
            r@ == spec_hit_ids(self.entries@, x_milli as int, y_milli as int, shape, filter),
    {
        let mut r: Vec<u64> = Vec::new();
        let mut i: usize = 0;
        while i < self.entries.len()
            invariant
                i <= self.entries@.len(),
                -COORD_BOUND < x_milli < COORD_BOUND,
                -COORD_BOUND < y_milli < COORD_BOUND,
                0 <= shape.w_milli < COORD_BOUND,
                0 <= shape.h_milli < COORD_BOUND,
                forall|j: int|
                    0 <= j < self.entries@.len() ==> entry_in_bounds(#[trigger] self.entries@[j]),
                r@ == spec_hit_ids(
                    self.entries@.subrange(0, i as int),
                    x_milli as int,
                    y_milli as int,
                    shape,
                    filter,
                ),
            decreases self.entries@.len() - i,
        {
            let entry = self.entries[i];
            proof {
                assert(self.entries@.subrange(0, i + 1).drop_last() == self.entries@.subrange(
                    0,
                    i as int,
                ));
                assert(self.entries@.subrange(0, i + 1).last() == self.entries@[i as int]);
            }
            if rects_overlap(x_milli, y_milli, shape, entry.x_milli, entry.y_milli, entry.shape)
                && passes_filter(&entry, &filter) {
                r.push(entry.id);
            }
            i = i + 1;
        }
        proof {
            assert(self.entries@.subrange(0, self.entries@.len() as int) == self.entries@);
        }
        r
    }
}

/// Executable rectangle-overlap test matching `spec_overlaps`.
pub fn rects_overlap(
    x1: i64,
    y1: i64,
    s1: CollisionShape,
    x2: i64,
    y2: i64,
    s2: CollisionShape,
) -> (r: bool)
    requires
        -COORD_BOUND < x1 < COORD_BOUND,
        -COORD_BOUND < y1 < COORD_BOUND,
        -COORD_BOUND < x2 < COORD_BOUND,
        -COORD_BOUND < y2 < COORD_BOUND,
        0 <= s1.w_milli < COORD_BOUND,
        0 <= s1.h_milli < COORD_BOUND,
        0 <= s2.w_milli < COORD_BOUND,
        0 <= s2.h_milli < COORD_BOUND,
    ensures
        r == spec_overlaps(x1 as int, y1 as int, s1, x2 as int, y2 as int, s2),
{
    let dx: i64 = if x1 >= x2 {
        x1 - x2
    } else {
        x2 - x1
    };
    let dy: i64 = if y1 >= y2 {
        y1 - y2
    } else {
        y2 - y1
    };
    2 * dx < s1.w_milli + s2.w_milli && 2 * dy < s1.h_milli + s2.h_milli
}

fn passes_filter(entry: &CollisionQueryEntry, filter: &Option<CollisionFilter>) -> (r: bool)
    ensures
        r == spec_passes(*entry, *filter),
{
    match filter {
        Option::Some(f) => entry.id != f.exclude_id && (entry.flags & f.flags) != 0,
        Option::None => true,
    }
}

/// Executable sampled-sweep overlap test matching `spec_overlaps_at`.
fn overlaps_at(
    x: i64,
    y: i64,
    vx: i64,
    vy: i64,
    s: CollisionShape,
    entry: &CollisionQueryEntry,
    t: i64,
) -> (r: bool)
    requires
        -COORD_BOUND < x < COORD_BOUND,
        -COORD_BOUND < y < COORD_BOUND,
        -1_000_000 <= vx <= 1_000_000,
        -1_000_000 <= vy <= 1_000_000,
        0 <= s.w_milli < COORD_BOUND,
        0 <= s.h_milli < COORD_BOUND,
        entry_in_bounds(*entry),
        0 <= t <= 1000,
    ensures
        r == spec_overlaps_at(x as int, y as int, vx as int, vy as int, s, *entry, t as int),
{
    proof {
        assert(-0x4000_0000_0000 <= (vx as int) * (t as int) <= 0x4000_0000_0000)
            by (nonlinear_arith)
            requires
                -1_000_000 <= vx <= 1_000_000,
                0 <= t <= 1000,
        ;
        assert(-0x4000_0000_0000 <= (vy as int) * (t as int) <= 0x4000_0000_0000)
            by (nonlinear_arith)
            requires
                -1_000_000 <= vy <= 1_000_000,
                0 <= t <= 1000,
        ;
    }
    let px: i64 = 1000 * (x - entry.x_milli) + vx * t;
    let py: i64 = 1000 * (y - entry.y_milli) + vy * t;
    let ax: i64 = if px >= 0 {
        px
    } else {
        -px
    };
    let ay: i64 = if py >= 0 {
        py
    } else {
        -py
    };
    2 * ax < 1000 * (s.w_milli + entry.shape.w_milli) && 2 * ay < 1000 * (s.h_milli
        + entry.shape.h_milli)
}

} // verus!
