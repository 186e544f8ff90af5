//! Who can hit whom, and in what order the checker looks.
//!
//! Every frame each body with a collision script registers itself, and the
//! checker then looks at every pair of registrations once, in registration
//! order: the first body against each later one, then the second against each
//! later one, and so on. Bullets hit ships, nothing hits its own kind, and no
//! one hits their own side. Whether two candidates actually overlap is a
//! question of polygons, answered by the geometry; the candidates themselves,
//! and their order, are settled here. That order matters: hits are resolved
//! as they are found, so a ship can die to the first of two bullets and still
//! be struck by the second.
use vstd::prelude::*;

use crate::world::ActorId;

verus! {

/// Bullets hit ships, and nothing hits its own kind.
#[derive(Clone, Copy, Debug, PartialEq, Eq, Structural)]
pub enum CollisionType {
    Ship,
    Bullet,
}

/// A contact, with the ship first whichever of the two registered first.
#[derive(Clone, Copy, Debug, PartialEq, Eq, Structural)]
pub struct Hit {
    pub ship: ActorId,
    pub bullet: ActorId,
}

/// What the checker knows of a registered body, besides where it is.
#[derive(Clone, Copy, Debug, PartialEq, Eq, Structural)]
pub struct Contact {
    pub actor: ActorId,
    pub collision_type: CollisionType,
    /// The side it fights for.
    pub player: usize,
}

/// Whether two bodies are worth testing for overlap at all: one ship, one
/// bullet, on different sides.
pub open spec fn may_hit(a: Contact, b: Contact) -> bool {
    a.collision_type != b.collision_type && a.player != b.player
}

/// The contact two bodies make, ship first.
pub open spec fn hit_of(a: Contact, b: Contact) -> Hit {
    if a.collision_type == CollisionType::Bullet {
        Hit { ship: b.actor, bullet: a.actor }
    } else {
        Hit { ship: a.actor, bullet: b.actor }
    }
}

/// The candidates that pair body `i` with the bodies from `j` on, in order.
pub open spec fn row(bodies: Seq<Contact>, i: int, j: int) -> Seq<(usize, usize)>
    decreases bodies.len() - j,
{
    if j >= bodies.len() || j < 0 {
        Seq::empty()
    } else {
        let rest = row(bodies, i, j + 1);
        if may_hit(bodies[i], bodies[j]) {
            seq![(i as usize, j as usize)] + rest
        } else {
            rest
        }
    }
}

/// The candidates whose first body is `i` or later: each body against every
/// later one, in registration order.
pub open spec fn rows(bodies: Seq<Contact>, i: int) -> Seq<(usize, usize)>
    decreases bodies.len() - i,
{
    if i >= bodies.len() || i < 0 {
        Seq::empty()
    } else {
        row(bodies, i, i + 1) + rows(bodies, i + 1)
    }
}

/// Every pair the checker tests, in the order it tests them.
pub open spec fn candidates(bodies: Seq<Contact>) -> Seq<(usize, usize)> {
    rows(bodies, 0)
}

/// Whether the pair `p` comes strictly before `q` in the checker's order.
pub open spec fn precedes(p: (usize, usize), q: (usize, usize)) -> bool {
    p.0 < q.0 || (p.0 == q.0 && p.1 < q.1)
}

/// Whether two bodies are worth testing for overlap.
pub fn can_hit(a: &Contact, b: &Contact) -> (r: bool)
    ensures
        r == may_hit(*a, *b),
{
    a.collision_type != b.collision_type && a.player != b.player
}

/// The contact two bodies make, with the ship first.
pub fn hit(first: &Contact, second: &Contact) -> (h: Hit)
    ensures
        h == hit_of(*first, *second),
        may_hit(*first, *second) && first.collision_type == CollisionType::Ship ==> h.ship
            == first.actor && h.bullet == second.actor,
        may_hit(*first, *second) && second.collision_type == CollisionType::Ship ==> h.ship
            == second.actor && h.bullet == first.actor,
{
    if first.collision_type == CollisionType::Bullet {
        Hit { ship: second.actor, bullet: first.actor }
    } else {
        Hit { ship: first.actor, bullet: second.actor }
    }
}

/// Every pair of registrations the checker tests for overlap, as indices into
/// `bodies`, in the order it tests them.
pub fn candidate_pairs(bodies: &[Contact]) -> (pairs: Vec<(usize, usize)>)
    ensures
        pairs@ == candidates(bodies@),
{
    let n = bodies.len();
    let mut pairs: Vec<(usize, usize)> = Vec::new();
    let mut i: usize = 0;
    while i < n
        invariant
            n == bodies@.len(),
            i <= n,
            pairs@ + rows(bodies@, i as int) == candidates(bodies@),
        decreases n - i,
    {
        let mut j: usize = i + 1;
        assert(rows(bodies@, i as int) == row(bodies@, i as int, j as int) + rows(
            bodies@,
            i + 1,
        ));
        while j < n
            invariant
                n == bodies@.len(),
                i < n,
                i < j <= n,
                pairs@ + row(bodies@, i as int, j as int) + rows(bodies@, i + 1) == candidates(
                    bodies@,
                ),
            decreases n - j,
        {
            let ghost before = pairs@;
            if can_hit(&bodies[i], &bodies[j]) {
                pairs.push((i, j));
                assert(before + row(bodies@, i as int, j as int) == pairs@ + row(
                    bodies@,
                    i as int,
                    j + 1,
                ));
            } else {
                assert(row(bodies@, i as int, j as int) == row(bodies@, i as int, j + 1));
            }
            j = j + 1;
        }
        assert(row(bodies@, i as int, n as int) == Seq::<(usize, usize)>::empty());
        assert(pairs@ + row(bodies@, i as int, n as int) == pairs@);
        i = i + 1;
    }
    assert(rows(bodies@, n as int) == Seq::<(usize, usize)>::empty());
    assert(pairs@ + rows(bodies@, n as int) == pairs@);
    pairs
}

/// What one row holds: pairs of `i` with a later body from `j` on that it may
/// hit, in increasing order of that body.
proof fn lemma_row(bodies: Seq<Contact>, i: int, j: int)
    requires
        0 <= i < bodies.len(),
        i < j,
        bodies.len() <= usize::MAX,
    ensures
        forall|p: (usize, usize)| #[trigger]
            row(bodies, i, j).contains(p) <==> (p.0 == i && j <= p.1 < bodies.len() && may_hit(
                bodies[i],
                bodies[p.1 as int],
            )),
        forall|a: int, c: int|
            0 <= a < c < row(bodies, i, j).len() ==> #[trigger] row(bodies, i, j)[a].1 < #[trigger] row(
                bodies,
                i,
                j,
            )[c].1,
    decreases bodies.len() - j,
{
    if j < bodies.len() {
        lemma_row(bodies, i, j + 1);
        let rest = row(bodies, i, j + 1);
        if may_hit(bodies[i], bodies[j]) {
            let r = seq![(i as usize, j as usize)] + rest;
            assert forall|p: (usize, usize)| #[trigger] r.contains(p) <==> (p.0 == i && j <= p.1
                < bodies.len() && may_hit(bodies[i], bodies[p.1 as int])) by {
                if r.contains(p) {
                    let k = choose|k: int| 0 <= k < r.len() && r[k] == p;
                    if k > 0 {
                        assert(rest[k - 1] == p);
                        assert(rest.contains(p));
                    }
                }
                if p.0 == i && j <= p.1 < bodies.len() && may_hit(bodies[i], bodies[p.1 as int]) {
                    if p.1 == j {
                        assert(r[0] == p);
                    } else {
                        assert(rest.contains(p));
                        let k = choose|k: int| 0 <= k < rest.len() && rest[k] == p;
                        assert(r[k + 1] == p);
                    }
                }
            }
            assert forall|a: int, c: int| 0 <= a < c < r.len() implies #[trigger] r[a].1
                < #[trigger] r[c].1 by {
                if a == 0 {
                    assert(rest.contains(r[c]));
                } else {
                    assert(r[a] == rest[a - 1]);
                    assert(r[c] == rest[c - 1]);
                }
            }
        }
    }
}

/// What the rows from `i` on hold: every pair of bodies `p.0 < p.1`, the first
/// from `i` on, that may hit; in the checker's order.
proof fn lemma_rows(bodies: Seq<Contact>, i: int)
    requires
        0 <= i <= bodies.len(),
        bodies.len() <= usize::MAX,
    ensures
        forall|p: (usize, usize)| #[trigger]
            rows(bodies, i).contains(p) <==> (i <= p.0 < p.1 < bodies.len() && may_hit(
                bodies[p.0 as int],
                bodies[p.1 as int],
            )),
        forall|a: int, c: int|
            0 <= a < c < rows(bodies, i).len() ==> precedes(
                #[trigger] rows(bodies, i)[a],
                #[trigger] rows(bodies, i)[c],
            ),
    decreases bodies.len() - i,
{
    if i < bodies.len() {
        lemma_rows(bodies, i + 1);
        lemma_row(bodies, i, i + 1);
        let head = row(bodies, i, i + 1);
        let tail = rows(bodies, i + 1);
        let r = head + tail;
        assert(r == rows(bodies, i));
        assert forall|p: (usize, usize)| #[trigger] r.contains(p) <==> (i <= p.0 < p.1
            < bodies.len() && may_hit(bodies[p.0 as int], bodies[p.1 as int])) by {
            if r.contains(p) {
                let k = choose|k: int| 0 <= k < r.len() && r[k] == p;
                if k < head.len() {
                    assert(head[k] == p);
                    assert(head.contains(p));
                } else {
                    assert(tail[k - head.len()] == p);
                    assert(tail.contains(p));
                }
            }
            if i <= p.0 < p.1 < bodies.len() && may_hit(bodies[p.0 as int], bodies[p.1 as int]) {
                if p.0 == i {
                    assert(head.contains(p));
                    let k = choose|k: int| 0 <= k < head.len() && head[k] == p;
                    assert(r[k] == p);
                } else {
                    assert(tail.contains(p));
                    let k = choose|k: int| 0 <= k < tail.len() && tail[k] == p;
                    assert(r[k + head.len()] == p);
                }
            }
        }
        assert forall|a: int, c: int| 0 <= a < c < r.len() implies precedes(
            #[trigger] r[a],
            #[trigger] r[c],
        ) by {
            if c < head.len() {
                assert(r[a] == head[a]);
                assert(r[c] == head[c]);
                assert(head.contains(head[a]));
                assert(head.contains(head[c]));
            } else if a < head.len() {
                assert(r[a] == head[a]);
                assert(head.contains(head[a]));
                assert(r[c] == tail[c - head.len()]);
                assert(tail.contains(tail[c - head.len()]));
            } else {
                assert(r[a] == tail[a - head.len()]);
                assert(r[c] == tail[c - head.len()]);
            }
        }
    }
}

/// The checker tests exactly the pairs of bodies that may hit -- each pair
/// once, the earlier registration first -- and it tests them in registration
/// order: by first body, then by second.
pub proof fn lemma_candidates_are_every_pair_that_may_hit_in_order(bodies: Seq<Contact>)
    requires
        bodies.len() <= usize::MAX,
    ensures
        forall|p: (usize, usize)| #[trigger]
            candidates(bodies).contains(p) <==> (p.0 < p.1 < bodies.len() && may_hit(
                bodies[p.0 as int],
                bodies[p.1 as int],
            )),
        forall|a: int, c: int|
            0 <= a < c < candidates(bodies).len() ==> precedes(
                #[trigger] candidates(bodies)[a],
                #[trigger] candidates(bodies)[c],
            ),
{
    lemma_rows(bodies, 0);
}

/// A contact always names the ship as the ship, whichever of the two bodies
/// registered first.
pub proof fn lemma_the_ship_comes_first(a: Contact, b: Contact)
    requires
        may_hit(a, b),
    ensures
        hit_of(a, b) == hit_of(b, a),
        a.collision_type == CollisionType::Ship ==> hit_of(a, b).ship == a.actor,
        b.collision_type == CollisionType::Ship ==> hit_of(a, b).ship == b.actor,
{
}

/// Any ship and any bullet of two different sides are worth testing, whoever
/// the sides are, in either order; two bodies of one kind, or of one side,
/// never are.
pub proof fn lemma_ships_and_bullets_of_different_sides_may_hit(a: Contact, b: Contact)
    ensures
        may_hit(a, b) <==> (a.player != b.player && ((a.collision_type == CollisionType::Ship
            && b.collision_type == CollisionType::Bullet) || (a.collision_type
            == CollisionType::Bullet && b.collision_type == CollisionType::Ship))),
        may_hit(a, b) == may_hit(b, a),
{
}

} // verus!
