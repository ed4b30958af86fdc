//! The player's trail: a short history of where it has been.
//!
//! The trail is kept newest first. Every tick adds one segment at the front and
//! drops from the back what is older than `TRAIL_LIFETIME`.
use crate::fixed::{fx_mul, sat_add, sat_neg, sat_sub, ONE};
use crate::vec2::Vec2;
use crate::vertex::{get_z, push_triangles, quadify, spec_quadify, Vertex, TRAIL_LAYER};
use vstd::prelude::*;

verus! {

/// How long a segment stays in the trail: 300 units of simulation time.
pub const TRAIL_LIFETIME: i64 = 300_000_000;

/// Half the width at which a segment is drawn: 0.01.
pub const TRAIL_WIDTH: i64 = 10_000;

/// By how much a drawn segment is lengthened at each end: 0.001.
pub const TRAIL_PADDING: i64 = 1_000;

/// The rate at which the trail shines: 0.05.
pub const TRAIL_SHINE_RATE: i64 = 50_000;

/// One segment of the trail: where the player moved from and to, when, and how
/// long after the segment before it.
#[derive(Debug, Default, Clone, Copy, PartialEq, Eq, Structural)]
pub struct Trail {
    pub from: Vec2,
    pub to: Vec2,
    pub time: i64,
    pub delta: i64,
}

impl Trail {
    /// The segment from `from` to `to` made at `start_time`, the one before it
    /// having been made at `last_time`.
    pub open spec fn spec_new(from: Vec2, to: Vec2, start_time: i64, last_time: i64) -> Trail {
        Trail { from, to, time: start_time, delta: sat_sub(start_time, last_time) }
    }

    /// Whether the segment has outlived `TRAIL_LIFETIME` at time `now`.
    pub open spec fn expired(self, now: i64) -> bool {
        sat_add(self.time, TRAIL_LIFETIME) < now
    }

    /// Whether the segment has no length, so that it has no direction.
    pub open spec fn spec_is_degenerate(&self) -> bool {
        self.from == self.to
    }

    /// One corner of the drawn segment. It lies beyond `corner` in the direction
    /// `dir` by the padding, backward at the near end and forward at the far
    /// end. It is light grey and shines white, from the start times `base`
    /// times ten, less the time of the segment; at the far end they are later
    /// by the segment's `delta`.
    pub open spec fn spec_corner(self, corner: Vec2, dir: Vec2, far: bool, base: [i64; 3]) -> Vertex {
        let pad = if far {
            TRAIL_PADDING
        } else {
            sat_neg(TRAIL_PADDING)
        };
        let lag = if far {
            self.delta
        } else {
            0
        };
        Vertex {
            pos: corner.plus(dir.scale(pad)).spec_extend(get_z(TRAIL_LAYER)),
            color: [700_000i64, 700_000i64, 700_000i64, 1_000_000i64],
            shine_color: [1_000_000i64, 1_000_000i64, 1_000_000i64, 700_000i64],
            start_time: [
                sat_sub(sat_add(fx_mul(base[0], 10_000_000), lag), self.time),
                sat_sub(sat_add(fx_mul(base[1], 10_000_000), lag), self.time),
                sat_sub(sat_add(fx_mul(base[2], 10_000_000), lag), self.time),
            ],
            shine_rate: TRAIL_SHINE_RATE,
            shine_bias: [0i64, 0i64, 0i64],
        }
    }

    /// What is drawn of the segment: a stroke from `from` to `to`, drawn
    /// `TRAIL_WIDTH` to either side and `TRAIL_PADDING` beyond each end, as two
    /// triangles. A segment without length has no direction, and nothing is
    /// drawn of it.
    #[verifier::opaque]
    pub open spec fn vertices(self) -> Seq<Vertex> {
        if self.spec_is_degenerate() {
            Seq::empty()
        } else {
            let dir = self.to.minus(self.from).spec_normalize();
            let side = dir.spec_turned().scale(TRAIL_WIDTH);
            spec_quadify(
                seq![
                    self.spec_corner(
                        self.from.plus(side),
                        dir,
                        false,
                        [0i64, 250_000i64, 500_000i64],
                    ),
                    self.spec_corner(
                        self.from.minus(side),
                        dir,
                        false,
                        [50_000i64, 300_000i64, 550_000i64],
                    ),
                    self.spec_corner(
                        self.to.plus(side),
                        dir,
                        true,
                        [0i64, 250_000i64, 550_000i64],
                    ),
                    self.spec_corner(
                        self.to.minus(side),
                        dir,
                        true,
                        [50_000i64, 300_000i64, 550_000i64],
                    ),
                ],
            )
        }
    }

    /// Makes the segment from `from` to `to` at `start_time`, the one before it
    /// having been made at `last_time`.
    #[verifier::when_used_as_spec(spec_new)]
    pub fn new(from: Vec2, to: Vec2, start_time: i64, last_time: i64) -> (r: Trail)
        ensures
            r == Self::spec_new(from, to, start_time, last_time),
    {
        Trail { from, to, time: start_time, delta: sat_sub(start_time, last_time) }
    }

    /// Half the width at which a segment is drawn.
    pub fn width(&self) -> (r: i64)
        ensures
            r == TRAIL_WIDTH,
    {
        TRAIL_WIDTH
    }

    /// By how much a drawn segment is lengthened at each end.
    pub fn extra_padding(&self) -> (r: i64)
        ensures
            r == TRAIL_PADDING,
    {
        TRAIL_PADDING
    }

    /// Whether the segment starts where it ends.
    #[verifier::when_used_as_spec(spec_is_degenerate)]
    pub fn is_degenerate(&self) -> (r: bool)
        ensures
            r == self.spec_is_degenerate(),
    {
        self.from.x == self.to.x && self.from.y == self.to.y
    }

    /// Makes one corner of the drawn segment.
    #[verifier::when_used_as_spec(spec_corner)]
    pub fn corner(self, corner: Vec2, dir: Vec2, far: bool, base: [i64; 3]) -> (r: Vertex)
        ensures
            r == self.spec_corner(corner, dir, far, base),
    {
        let pad = if far {
            self.extra_padding()
        } else {
            sat_neg(self.extra_padding())
        };
        let lag = if far {
            self.delta
        } else {
            0
        };
        Vertex {
            pos: corner.plus(dir.scale(pad)).extend(get_z(TRAIL_LAYER)),
            color: [700_000, 700_000, 700_000, 1_000_000],
            shine_color: [1_000_000, 1_000_000, 1_000_000, 700_000],
            start_time: [
                sat_sub(sat_add(fx_mul(base[0], 10_000_000), lag), self.time),
                sat_sub(sat_add(fx_mul(base[1], 10_000_000), lag), self.time),
                sat_sub(sat_add(fx_mul(base[2], 10_000_000), lag), self.time),
            ],
            shine_rate: TRAIL_SHINE_RATE,
            shine_bias: [0, 0, 0],
        }
    }

    /// Adds the segment to the vertices to draw. A segment without length has
    /// no direction and is left out.
    pub fn render(&self, v: &mut Vec<Vertex>)
        ensures
            final(v)@ == old(v)@ + self.vertices(),
    {
        reveal(Trail::vertices);
        if self.is_degenerate() {
            assert(v@ =~= old(v)@ + self.vertices());
            return ;
        }
        let dir = self.to.minus(self.from).normalize();
        let side = dir.turned().scale(self.width());
        let r = [
            self.corner(self.from.plus(side), dir, false, [0, 250_000, 500_000]),
            self.corner(self.from.minus(side), dir, false, [50_000, 300_000, 550_000]),
            self.corner(self.to.plus(side), dir, true, [0, 250_000, 550_000]),
            self.corner(self.to.minus(side), dir, true, [50_000, 300_000, 550_000]),
        ];
        push_triangles(v, quadify(r));
    }
}

/// What is drawn of a trail: its segments in order, without those that have no
/// length.
pub open spec fn trail_vertices(trail: Seq<Trail>) -> Seq<Vertex>
    decreases trail.len(),
{
    if trail.len() == 0 {
        Seq::empty()
    } else {
        trail_vertices(trail.drop_last()) + trail.last().vertices()
    }
}

/// The trail with a new first segment, from `old_pos` to `centre`, made at
/// `now`. Its `delta` is the time since the segment that was first before; for
/// an empty trail it is one time unit.
pub open spec fn extended(trail: Seq<Trail>, old_pos: Vec2, centre: Vec2, now: i64) -> Seq<Trail> {
    let last_time = if trail.len() == 0 {
        sat_sub(now, ONE)
    } else {
        trail[0].time
    };
    trail.insert(0, Trail::spec_new(old_pos, centre, now, last_time))
}

/// The trail without the expired segments at its end: segments are dropped from
/// the back until the last one has not expired.
pub open spec fn pruned(trail: Seq<Trail>, now: i64) -> Seq<Trail>
    decreases trail.len(),
{
    if trail.len() > 0 && trail.last().expired(now) {
        pruned(trail.drop_last(), now)
    } else {
        trail
    }
}

/// The trail after one tick.
pub open spec fn trail_after(trail: Seq<Trail>, old_pos: Vec2, centre: Vec2, now: i64) -> Seq<
    Trail,
> {
    pruned(extended(trail, old_pos, centre, now), now)
}

/// Whether the segments are ordered newest first.
pub open spec fn newest_first(trail: Seq<Trail>) -> bool {
    forall|i: int, j: int| 0 <= i <= j < trail.len() ==> trail[i].time >= trail[j].time
}

/// Whether the trail is as ticks leave it at a time up to `now`: ordered newest
/// first, with nothing from after `now`.
pub open spec fn in_order(trail: Seq<Trail>, now: i64) -> bool {
    newest_first(trail) && (trail.len() > 0 ==> trail[0].time <= now)
}

/// Whether no segment of the trail has expired at time `now`.
pub open spec fn all_fresh(trail: Seq<Trail>, now: i64) -> bool {
    forall|i: int| 0 <= i < trail.len() ==> !(#[trigger] trail[i]).expired(now)
}

/// Records the move from `old_pos` to `centre` at time `now` and drops what has
/// expired.
pub fn update_trail(trail: &mut Vec<Trail>, old_pos: Vec2, centre: Vec2, now: i64)
    ensures
        final(trail)@ == trail_after(old(trail)@, old_pos, centre, now),
{
    let last_time = if trail.is_empty() {
        sat_sub(now, ONE)
    } else {
        trail[0].time
    };
    trail.insert(0, Trail::new(old_pos, centre, now, last_time));
    let ghost grown = trail@;
    while sat_add(trail[trail.len() - 1].time, TRAIL_LIFETIME) < now
        invariant
            trail@.len() >= 1,
            trail@[0].time == now,
            pruned(trail@, now) == pruned(grown, now),
        decreases trail@.len(),
    {
        assert(trail@.len() > 1);
        trail.pop();
    }
}

/// Pruning keeps a front part of the trail.
pub proof fn lemma_pruned_is_prefix(trail: Seq<Trail>, now: i64)
    ensures
        pruned(trail, now).len() <= trail.len(),
        pruned(trail, now) == trail.take(pruned(trail, now).len() as int),
    decreases trail.len(),
{
    if trail.len() > 0 && trail.last().expired(now) {
        lemma_pruned_is_prefix(trail.drop_last(), now);
        let n = pruned(trail, now).len() as int;
        assert(trail.drop_last().take(n) =~= trail.take(n));
    } else {
        assert(trail.take(trail.len() as int) =~= trail);
    }
}

/// In a trail that is ordered newest first, pruning leaves no expired segment.
pub proof fn lemma_pruned_is_fresh(trail: Seq<Trail>, now: i64)
    requires
        newest_first(trail),
    ensures
        newest_first(pruned(trail, now)),
        all_fresh(pruned(trail, now), now),
    decreases trail.len(),
{
    if trail.len() > 0 && trail.last().expired(now) {
        lemma_pruned_is_fresh(trail.drop_last(), now);
    } else {
        assert forall|i: int| 0 <= i < trail.len() implies !(#[trigger] trail[i]).expired(now) by {
            assert(trail[i].time >= trail.last().time);
        }
    }
}

/// After a tick at time `now`, a trail that was ordered newest first and held
/// nothing from the future is still ordered, starts with a segment made at
/// `now`, and holds no segment made more than `TRAIL_LIFETIME` before `now`.
pub proof fn trail_holds_no_old_segment(trail: Seq<Trail>, old_pos: Vec2, centre: Vec2, now: i64)
    requires
        in_order(trail, now),
    ensures
        in_order(trail_after(trail, old_pos, centre, now), now),
        all_fresh(trail_after(trail, old_pos, centre, now), now),
        newest_first(trail_after(trail, old_pos, centre, now)),
        trail_after(trail, old_pos, centre, now).len() >= 1,
        trail_after(trail, old_pos, centre, now)[0].time == now,
        forall|i: int|
            0 <= i < trail_after(trail, old_pos, centre, now).len() ==> now - (
            #[trigger] trail_after(trail, old_pos, centre, now)[i]).time <= TRAIL_LIFETIME,
{
    let grown = extended(trail, old_pos, centre, now);
    assert(newest_first(grown));
    lemma_pruned_is_fresh(grown, now);
    lemma_pruned_is_prefix(grown, now);
    lemma_head_survives(grown, now);
    let kept = pruned(grown, now);
    assert forall|i: int| 0 <= i < kept.len() implies now - (#[trigger] kept[i]).time
        <= TRAIL_LIFETIME by {
        assert(!kept[i].expired(now));
        assert(kept[i] == grown[i]);
        assert(grown[i].time <= grown[0].time);
    }
}

/// A trail whose first segment has not expired keeps it when pruned.
pub proof fn lemma_head_survives(trail: Seq<Trail>, now: i64)
    requires
        trail.len() >= 1,
        !trail[0].expired(now),
    ensures
        pruned(trail, now).len() >= 1,
        pruned(trail, now)[0] == trail[0],
    decreases trail.len(),
{
    if trail.last().expired(now) {
        lemma_head_survives(trail.drop_last(), now);
    }
}

} // verus!
