use vstd::prelude::*;
use crate::collider::Collider;
use crate::collision::Collision;
use crate::collision_direction::CollisionDirection;

verus! {

// The geometric model. Each rectangle's edges come from its center and
// half-extents; the y axis grows downward, so `top` is the smaller
// coordinate. The four directed overlap amounts measure how far each
// rectangle reaches past the facing edge of the other; the rectangles
// overlap exactly when all four are strictly positive (edges merely
// touching do not count).

pub open spec fn left_edge(c: Collider) -> int {
    c.location.x - c.width as int / 2
}

pub open spec fn right_edge(c: Collider) -> int {
    c.location.x + c.width as int / 2
}

pub open spec fn top_edge(c: Collider) -> int {
    c.location.y - c.height as int / 2
}

pub open spec fn bottom_edge(c: Collider) -> int {
    c.location.y + c.height as int / 2
}

pub open spec fn left_overlap(primary: Collider, secondary: Collider) -> int {
    right_edge(primary) - left_edge(secondary)
}

pub open spec fn right_overlap(primary: Collider, secondary: Collider) -> int {
    right_edge(secondary) - left_edge(primary)
}

pub open spec fn top_overlap(primary: Collider, secondary: Collider) -> int {
    bottom_edge(primary) - top_edge(secondary)
}

pub open spec fn bottom_overlap(primary: Collider, secondary: Collider) -> int {
    bottom_edge(secondary) - top_edge(primary)
}

pub open spec fn overlapping(primary: Collider, secondary: Collider) -> bool {
    &&& left_overlap(primary, secondary) > 0
    &&& right_overlap(primary, secondary) > 0
    &&& top_overlap(primary, secondary) > 0
    &&& bottom_overlap(primary, secondary) > 0
}

// The resolution rule: the smaller of the two horizontal overlaps names a
// horizontal candidate (ties go to `Right`, since the comparison is a
// strict less-than on `left_overlap`), the smaller of the two vertical
// overlaps a vertical one (ties go to `Bottom`), and the smaller candidate
// wins overall (ties go to the vertical candidate).

pub open spec fn horizontal_depth(primary: Collider, secondary: Collider) -> int {
    if left_overlap(primary, secondary) < right_overlap(primary, secondary) {
        left_overlap(primary, secondary)
    } else {
        right_overlap(primary, secondary)
    }
}

pub open spec fn vertical_depth(primary: Collider, secondary: Collider) -> int {
    if top_overlap(primary, secondary) < bottom_overlap(primary, secondary) {
        top_overlap(primary, secondary)
    } else {
        bottom_overlap(primary, secondary)
    }
}

pub open spec fn resolved_depth(primary: Collider, secondary: Collider) -> int {
    if horizontal_depth(primary, secondary) < vertical_depth(primary, secondary) {
        horizontal_depth(primary, secondary)
    } else {
        vertical_depth(primary, secondary)
    }
}

pub open spec fn resolved_direction(primary: Collider, secondary: Collider) -> CollisionDirection {
    if horizontal_depth(primary, secondary) < vertical_depth(primary, secondary) {
        if left_overlap(primary, secondary) < right_overlap(primary, secondary) {
            CollisionDirection::Left
        } else {
            CollisionDirection::Right
        }
    } else {
        if top_overlap(primary, secondary) < bottom_overlap(primary, secondary) {
            CollisionDirection::Top
        } else {
            CollisionDirection::Bottom
        }
    }
}

/// Tests one ordered pair of colliders. Returns a record carrying the two
/// caller-supplied indices exactly when the rectangles overlap; the record
/// reports the side of entry and the minimal correction distance under the
/// resolution rule above.
pub fn find_collision(
    primary_index: usize,
    secondary_index: usize,
    primary: &Collider,
    secondary: &Collider,
) -> (result: Option<Collision>)
    requires
        primary.sized(),
        secondary.sized(),
    ensures
        result is Some <==> overlapping(*primary, *secondary),
        result matches Some(collision) ==> {
            &&& collision.primary_index == primary_index
            &&& collision.secondary_index == secondary_index
            &&& collision.entry_direction == resolved_direction(*primary, *secondary)
            &&& collision.penetration_depth == resolved_depth(*primary, *secondary)
            &&& collision.penetration_depth > 0
        },
{
    let primary_left: i64 = primary.location.x as i64 - primary.width as i64 / 2;
    let primary_right: i64 = primary.location.x as i64 + primary.width as i64 / 2;
    let primary_top: i64 = primary.location.y as i64 - primary.height as i64 / 2;
    let primary_bottom: i64 = primary.location.y as i64 + primary.height as i64 / 2;

    let secondary_left: i64 = secondary.location.x as i64 - secondary.width as i64 / 2;
    let secondary_right: i64 = secondary.location.x as i64 + secondary.width as i64 / 2;
    let secondary_top: i64 = secondary.location.y as i64 - secondary.height as i64 / 2;
    let secondary_bottom: i64 = secondary.location.y as i64 + secondary.height as i64 / 2;

    let left_overlap: i64 = primary_right - secondary_left;
    let right_overlap: i64 = secondary_right - primary_left;
    let top_overlap: i64 = primary_bottom - secondary_top;
    let bottom_overlap: i64 = secondary_bottom - primary_top;

    if left_overlap > 0 && right_overlap > 0 && top_overlap > 0 && bottom_overlap > 0 {
        let horizontal_overlap: i64 = if left_overlap < right_overlap { left_overlap } else { right_overlap };
        let horizontal_direction = if left_overlap < right_overlap {
            CollisionDirection::Left
        } else {
            CollisionDirection::Right
        };

        let vertical_overlap: i64 = if top_overlap < bottom_overlap { top_overlap } else { bottom_overlap };
        let vertical_direction = if top_overlap < bottom_overlap {
            CollisionDirection::Top
        } else {
            CollisionDirection::Bottom
        };

        let final_overlap: i64 = if horizontal_overlap < vertical_overlap { horizontal_overlap } else { vertical_overlap };
        let final_direction = if horizontal_overlap < vertical_overlap { horizontal_direction } else { vertical_direction };

        return Some(Collision::new(primary_index, secondary_index, final_direction, final_overlap));
    }

    None
}

// The broad phase walks every ordered pair of distinct indices `(i, j)`,
// primary ascending and secondary ascending, and keeps each positive
// pairwise result. The spec below builds that sequence by recursion on a
// prefix of the iteration, so the loop invariants can follow it step by
// step.

/// The record the detector produces for the ordered pair `(i, j)`.
pub open spec fn pair_collision(colliders: Seq<Collider>, i: int, j: int) -> Collision {
    Collision {
        primary_index: i as usize,
        secondary_index: j as usize,
        entry_direction: resolved_direction(colliders[i], colliders[j]),
        penetration_depth: resolved_depth(colliders[i], colliders[j]) as i64,
    }
}

/// The records with primary `i` and secondary below `j`, in secondary order.
pub open spec fn row_collisions_upto(colliders: Seq<Collider>, i: int, j: int) -> Seq<Collision>
    decreases j,
{
    if j <= 0 {
        Seq::<Collision>::empty()
    } else if i != j - 1 && overlapping(colliders[i], colliders[j - 1]) {
        row_collisions_upto(colliders, i, j - 1) + seq![pair_collision(colliders, i, j - 1)]
    } else {
        row_collisions_upto(colliders, i, j - 1)
    }
}

/// The records with primary below `i`, in iteration order.
pub open spec fn collisions_upto(colliders: Seq<Collider>, i: int) -> Seq<Collision>
    decreases i,
{
    if i <= 0 {
        Seq::<Collision>::empty()
    } else {
        collisions_upto(colliders, i - 1)
            + row_collisions_upto(colliders, i - 1, colliders.len() as int)
    }
}

/// Every record the broad phase produces, in iteration order.
pub open spec fn all_collisions(colliders: Seq<Collider>) -> Seq<Collision> {
    collisions_upto(colliders, colliders.len() as int)
}

/// Runs the pairwise test over every ordered pair of distinct indices and
/// collects the positive results in iteration order. Absent exactly when
/// no pair collides.
pub fn find_collisions(colliders: &[Collider]) -> (result: Option<Vec<Collision>>)
    requires
        forall|k: int| 0 <= k < colliders@.len() ==> (#[trigger] colliders@[k]).sized(),
    ensures
        result is Some <==> all_collisions(colliders@).len() > 0,
        result matches Some(found) ==> found@ == all_collisions(colliders@),
        result is None <==> forall|i: int, j: int|
            0 <= i < colliders@.len() && 0 <= j < colliders@.len() && i != j
                ==> !(#[trigger] overlapping(colliders@[i], colliders@[j])),
{
    let mut collisions: Vec<Collision> = Vec::new();
    let count = colliders.len();
    proof {
        lemma_empty_iff_no_overlaps(colliders@);
    }

    let mut primary_index: usize = 0;
    while primary_index < count
        invariant
            count == colliders@.len(),
            primary_index <= count,
            forall|k: int| 0 <= k < colliders@.len() ==> (#[trigger] colliders@[k]).sized(),
            collisions@ == collisions_upto(colliders@, primary_index as int),
        decreases count - primary_index,
    {
        let mut secondary_index: usize = 0;
        while secondary_index < count
            invariant
                count == colliders@.len(),
                primary_index < count,
                secondary_index <= count,
                forall|k: int| 0 <= k < colliders@.len() ==> (#[trigger] colliders@[k]).sized(),
                collisions@ == collisions_upto(colliders@, primary_index as int)
                    + row_collisions_upto(colliders@, primary_index as int, secondary_index as int),
            decreases count - secondary_index,
        {
            if primary_index != secondary_index {
                let collision = find_collision(
                    primary_index,
                    secondary_index,
                    &colliders[primary_index],
                    &colliders[secondary_index],
                );

                if let Some(collision) = collision {
                    proof {
                        assert(collision == pair_collision(
                            colliders@,
                            primary_index as int,
                            secondary_index as int,
                        ));
                    }
                    collisions.push(collision);
                }
            }

            proof {
                assert(collisions@ =~= collisions_upto(colliders@, primary_index as int)
                    + row_collisions_upto(
                        colliders@,
                        primary_index as int,
                        secondary_index as int + 1,
                    ));
            }
            secondary_index = secondary_index + 1;
        }

        proof {
            assert(collisions@ =~= collisions_upto(colliders@, primary_index as int + 1));
        }
        primary_index = primary_index + 1;
    }

    if collisions.len() > 0 {
        return Some(collisions);
    }

    None
}

// Laws of the detector.

/// Rectangles whose projected intervals are disjoint on at least one axis
/// do not overlap. Disjointness here is non-strict, so rectangles that
/// merely share an edge (zero overlap on one axis) also count as not
/// overlapping.
pub proof fn lemma_separated_axis_no_collision(primary: Collider, secondary: Collider)
    requires
        right_edge(primary) <= left_edge(secondary)
            || right_edge(secondary) <= left_edge(primary)
            || bottom_edge(primary) <= top_edge(secondary)
            || bottom_edge(secondary) <= top_edge(primary),
    ensures
        !overlapping(primary, secondary),
{
}

/// Rectangles that merely touch — a shared edge, so zero overlap on at
/// least one axis — do not count as overlapping: the boundary of the
/// no-collision condition is a strict inequality.
pub proof fn lemma_touching_edges_no_collision(primary: Collider, secondary: Collider)
    requires
        right_edge(primary) == left_edge(secondary)
            || right_edge(secondary) == left_edge(primary)
            || bottom_edge(primary) == top_edge(secondary)
            || bottom_edge(secondary) == top_edge(primary),
    ensures
        !overlapping(primary, secondary),
{
}

/// For an overlapping pair, the resolved penetration depth is strictly
/// positive and is the minimum of the four directed overlap amounts.
pub proof fn lemma_depth_is_minimum_overlap(primary: Collider, secondary: Collider)
    requires
        overlapping(primary, secondary),
    ensures
        resolved_depth(primary, secondary) > 0,
        resolved_depth(primary, secondary) <= left_overlap(primary, secondary),
        resolved_depth(primary, secondary) <= right_overlap(primary, secondary),
        resolved_depth(primary, secondary) <= top_overlap(primary, secondary),
        resolved_depth(primary, secondary) <= bottom_overlap(primary, secondary),
        resolved_depth(primary, secondary) == left_overlap(primary, secondary)
            || resolved_depth(primary, secondary) == right_overlap(primary, secondary)
            || resolved_depth(primary, secondary) == top_overlap(primary, secondary)
            || resolved_depth(primary, secondary) == bottom_overlap(primary, secondary),
{
}

/// Swapping primary and secondary preserves whether the pair overlaps and
/// preserves the resolved depth; only the reported side may change to its
/// geometric dual.
pub proof fn lemma_swapped_pair(primary: Collider, secondary: Collider)
    ensures
        overlapping(primary, secondary) == overlapping(secondary, primary),
        overlapping(primary, secondary)
            ==> resolved_depth(primary, secondary) == resolved_depth(secondary, primary),
{
}

proof fn lemma_row_collisions_complete(colliders: Seq<Collider>, i: int, j: int, j_hi: int)
    requires
        0 <= j < j_hi,
        i != j,
        overlapping(colliders[i], colliders[j]),
    ensures
        row_collisions_upto(colliders, i, j_hi).contains(pair_collision(colliders, i, j)),
    decreases j_hi,
{
    if j < j_hi - 1 {
        lemma_row_collisions_complete(colliders, i, j, j_hi - 1);
        let row = row_collisions_upto(colliders, i, j_hi - 1);
        let k = choose|k: int| 0 <= k < row.len() && row[k] == pair_collision(colliders, i, j);
        assert(row_collisions_upto(colliders, i, j_hi)[k] == pair_collision(colliders, i, j));
    } else {
        let row = row_collisions_upto(colliders, i, j_hi);
        assert(row[row.len() - 1] == pair_collision(colliders, i, j));
    }
}

proof fn lemma_collisions_upto_complete(colliders: Seq<Collider>, i: int, j: int, i_hi: int)
    requires
        0 <= i < i_hi,
        0 <= j < colliders.len(),
        i != j,
        overlapping(colliders[i], colliders[j]),
    ensures
        collisions_upto(colliders, i_hi).contains(pair_collision(colliders, i, j)),
    decreases i_hi,
{
    if i < i_hi - 1 {
        lemma_collisions_upto_complete(colliders, i, j, i_hi - 1);
        let part = collisions_upto(colliders, i_hi - 1);
        let k = choose|k: int| 0 <= k < part.len() && part[k] == pair_collision(colliders, i, j);
        assert(collisions_upto(colliders, i_hi)[k] == pair_collision(colliders, i, j));
    } else {
        lemma_row_collisions_complete(colliders, i, j, colliders.len() as int);
        let part = collisions_upto(colliders, i_hi - 1);
        let row = row_collisions_upto(colliders, i, colliders.len() as int);
        let k = choose|k: int| 0 <= k < row.len() && row[k] == pair_collision(colliders, i, j);
        assert(collisions_upto(colliders, i_hi)[part.len() + k] == pair_collision(colliders, i, j));
    }
}

/// Completeness of the broad phase: every ordered pair of distinct,
/// overlapping colliders appears in the produced sequence, as the record
/// the pairwise test reports for it.
pub proof fn lemma_broad_phase_complete(colliders: Seq<Collider>, i: int, j: int)
    requires
        0 <= i < colliders.len(),
        0 <= j < colliders.len(),
        i != j,
        overlapping(colliders[i], colliders[j]),
    ensures
        all_collisions(colliders).contains(pair_collision(colliders, i, j)),
{
    lemma_collisions_upto_complete(colliders, i, j, colliders.len() as int);
}

proof fn lemma_row_collisions_sound(colliders: Seq<Collider>, i: int, j_hi: int, collision: Collision)
    requires
        0 <= i < colliders.len() <= usize::MAX,
        j_hi <= colliders.len(),
        row_collisions_upto(colliders, i, j_hi).contains(collision),
    ensures
        collision.primary_index == i,
        collision.secondary_index < j_hi,
        collision.secondary_index != i,
        overlapping(colliders[i], colliders[collision.secondary_index as int]),
        collision == pair_collision(colliders, i, collision.secondary_index as int),
    decreases j_hi,
{
    let row = row_collisions_upto(colliders, i, j_hi);
    let prefix = row_collisions_upto(colliders, i, j_hi - 1);
    if j_hi > 0 && i != j_hi - 1 && overlapping(colliders[i], colliders[j_hi - 1]) {
        let k = choose|k: int| 0 <= k < row.len() && row[k] == collision;
        if k < prefix.len() {
            assert(prefix[k] == collision);
            lemma_row_collisions_sound(colliders, i, j_hi - 1, collision);
        } else {
            assert(collision == pair_collision(colliders, i, j_hi - 1));
        }
    } else {
        lemma_row_collisions_sound(colliders, i, j_hi - 1, collision);
    }
}

proof fn lemma_collisions_upto_sound(colliders: Seq<Collider>, i_hi: int, collision: Collision)
    requires
        colliders.len() <= usize::MAX,
        i_hi <= colliders.len(),
        collisions_upto(colliders, i_hi).contains(collision),
    ensures
        collision.primary_index < i_hi,
        collision.secondary_index < colliders.len(),
        collision.primary_index != collision.secondary_index,
        overlapping(
            colliders[collision.primary_index as int],
            colliders[collision.secondary_index as int],
        ),
        collision == pair_collision(
            colliders,
            collision.primary_index as int,
            collision.secondary_index as int,
        ),
    decreases i_hi,
{
    if i_hi > 0 {
        let whole = collisions_upto(colliders, i_hi);
        let prefix = collisions_upto(colliders, i_hi - 1);
        let k = choose|k: int| 0 <= k < whole.len() && whole[k] == collision;
        if k < prefix.len() {
            assert(prefix[k] == collision);
            lemma_collisions_upto_sound(colliders, i_hi - 1, collision);
        } else {
            let row = row_collisions_upto(colliders, i_hi - 1, colliders.len() as int);
            assert(row[k - prefix.len()] == collision);
            lemma_row_collisions_sound(colliders, i_hi - 1, colliders.len() as int, collision);
        }
    }
}

/// Soundness of the broad phase: every record in the produced sequence
/// names a valid ordered pair of distinct, overlapping colliders, and is
/// exactly the record the pairwise test reports for that pair.
pub proof fn lemma_broad_phase_sound(colliders: Seq<Collider>, collision: Collision)
    requires
        colliders.len() <= usize::MAX,
        all_collisions(colliders).contains(collision),
    ensures
        collision.primary_index < colliders.len(),
        collision.secondary_index < colliders.len(),
        collision.primary_index != collision.secondary_index,
        overlapping(
            colliders[collision.primary_index as int],
            colliders[collision.secondary_index as int],
        ),
        collision == pair_collision(
            colliders,
            collision.primary_index as int,
            collision.secondary_index as int,
        ),
{
    lemma_collisions_upto_sound(colliders, colliders.len() as int, collision);
}

/// The broad phase produces nothing exactly when no ordered pair of
/// distinct colliders overlaps.
pub proof fn lemma_empty_iff_no_overlaps(colliders: Seq<Collider>)
    requires
        colliders.len() <= usize::MAX,
    ensures
        all_collisions(colliders).len() == 0 <==> forall|i: int, j: int|
            0 <= i < colliders.len() && 0 <= j < colliders.len() && i != j
                ==> !(#[trigger] overlapping(colliders[i], colliders[j])),
{
    if all_collisions(colliders).len() == 0 {
        assert forall|i: int, j: int|
            0 <= i < colliders.len() && 0 <= j < colliders.len() && i != j
                implies !(#[trigger] overlapping(colliders[i], colliders[j])) by {
            if overlapping(colliders[i], colliders[j]) {
                lemma_broad_phase_complete(colliders, i, j);
            }
        }
    } else {
        let collision = all_collisions(colliders)[0];
        assert(all_collisions(colliders).contains(collision));
        lemma_broad_phase_sound(colliders, collision);
    }
}

} // verus!
