//! The indicator ring: eight positions ordered clockwise from north. The
//! renderer walks them with `get_next_direction` / `to_next_direction`; a
//! `PreAlarm` sweep visits every position once, in order, back to its start.

use vstd::prelude::*;

verus! {

/// Number of positions on the indicator ring.
pub const RING_SIZE: usize = 8;

/// One of the eight indicator positions, named by compass direction.
#[derive(Clone, Copy, PartialEq, Eq, Structural, Debug)]
pub enum LedDirection {
    N,
    NE,
    E,
    SE,
    S,
    SW,
    W,
    NW,
}

impl LedDirection {
    /// The position's index on the ring, clockwise from north.
    pub open spec fn spec_index(self) -> int {
        match self {
            LedDirection::N => 0,
            LedDirection::NE => 1,
            LedDirection::E => 2,
            LedDirection::SE => 3,
            LedDirection::S => 4,
            LedDirection::SW => 5,
            LedDirection::W => 6,
            LedDirection::NW => 7,
        }
    }

    /// The clockwise neighbour.
    pub open spec fn spec_next(self) -> LedDirection {
        match self {
            LedDirection::N => LedDirection::NE,
            LedDirection::NE => LedDirection::E,
            LedDirection::E => LedDirection::SE,
            LedDirection::SE => LedDirection::S,
            LedDirection::S => LedDirection::SW,
            LedDirection::SW => LedDirection::W,
            LedDirection::W => LedDirection::NW,
            LedDirection::NW => LedDirection::N,
        }
    }

    /// The ring position as an index, for selecting the physical output.
    pub fn ring_index(&self) -> (i: usize)
        ensures
            i == self.spec_index(),
            i < RING_SIZE,
    {
        match *self {
            LedDirection::N => 0,
            LedDirection::NE => 1,
            LedDirection::E => 2,
            LedDirection::SE => 3,
            LedDirection::S => 4,
            LedDirection::SW => 5,
            LedDirection::W => 6,
            LedDirection::NW => 7,
        }
    }

    /// The next position in the fixed clockwise order.
    pub fn get_next_direction(&self) -> (d: LedDirection)
        ensures
            d == self.spec_next(),
    {
        match *self {
            LedDirection::N => LedDirection::NE,
            LedDirection::NE => LedDirection::E,
            LedDirection::E => LedDirection::SE,
            LedDirection::SE => LedDirection::S,
            LedDirection::S => LedDirection::SW,
            LedDirection::SW => LedDirection::W,
            LedDirection::W => LedDirection::NW,
            LedDirection::NW => LedDirection::N,
        }
    }

    /// Advances to the next position in place.
    pub fn to_next_direction(&mut self)
        ensures
            *final(self) == old(self).spec_next(),
    {
        *self = self.get_next_direction();
    }
}

/// Law: stepping to the neighbour advances the ring index by one, modulo the
/// ring size; the walk is a single cycle through all eight positions.
pub proof fn lemma_next_advances_index(d: LedDirection)
    ensures
        d.spec_next().spec_index() == (d.spec_index() + 1) % (RING_SIZE as int),
{
}

/// Law: two positions with the same ring index are the same position.
pub proof fn lemma_index_injective(a: LedDirection, b: LedDirection)
    ensures
        a.spec_index() == b.spec_index() ==> a == b,
{
}

/// One full sweep of the ring: every position once, in the fixed clockwise
/// order, starting from `start` and wrapping around back to it. The renderer
/// lights the returned positions in order.
#[verifier::rlimit(50)]
pub fn sweep_order(start: LedDirection) -> (order: Vec<LedDirection>)
    ensures
        order.len() == RING_SIZE,
        order[0] == start,
        forall|i: int| 0 <= i < RING_SIZE - 1 ==> order[i + 1] == order[i].spec_next(),
        order[RING_SIZE - 1].spec_next() == start,
        forall|i: int| 0 <= i < RING_SIZE ==> order[i].spec_index()
            == (start.spec_index() + i) % (RING_SIZE as int),
{
    let mut order: Vec<LedDirection> = Vec::new();
    let mut current: LedDirection = start;
    for k in 0..RING_SIZE
        invariant
            order.len() == k,
            current.spec_index() == (start.spec_index() + k as int) % (RING_SIZE as int),
            k == 0 ==> current == start,
            forall|i: int| 0 <= i < k ==> order[i].spec_index()
                == (start.spec_index() + i) % (RING_SIZE as int),
            forall|i: int| 0 <= i < k as int - 1 ==> order[i + 1] == order[i].spec_next(),
            k > 0 ==> order[0] == start,
            k > 0 ==> current == order[k - 1].spec_next(),
    {
        order.push(current);
        proof {
            lemma_next_advances_index(current);
        }
        current = current.get_next_direction();
    }
    proof {
        lemma_index_injective(current, start);
    }
    order
}

/// Law: a sweep visits each of the eight positions exactly once: positions at
/// different steps of one sweep differ.
pub proof fn lemma_sweep_positions_distinct(start: LedDirection, order: Seq<LedDirection>)
    requires
        order.len() == RING_SIZE,
        forall|i: int| 0 <= i < RING_SIZE ==> order[i].spec_index()
            == (start.spec_index() + i) % (RING_SIZE as int),
    ensures
        forall|i: int, j: int| 0 <= i < j < RING_SIZE ==> order[i] != order[j],
{
    assert forall|i: int, j: int| 0 <= i < j < RING_SIZE implies order[i] != order[j] by {
        assert(order[i].spec_index() != order[j].spec_index());
    }
}

} // verus!
