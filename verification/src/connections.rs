//! The links between neighbouring territories, kept per side. Used for graph
//! traversals when handling linked move requests.
use vstd::prelude::*;

use crate::resize::{ResizeDirection, Side};

verus! {

/// Every neighbour that a territory is linked to, separated by the side they
/// are linked on. `E` identifies a territory.
pub struct CardinalConnections<E> {
    pub northern: Vec<E>,
    pub eastern: Vec<E>,
    pub southern: Vec<E>,
    pub western: Vec<E>,
}

/// The links on the given sides, one side after the other.
pub open spec fn links_along<E>(c: CardinalConnections<E>, sides: Seq<Side>) -> Seq<E>
    decreases sides.len(),
{
    if sides.len() == 0 {
        Seq::empty()
    } else {
        c.spec_side_links(sides[0]) + links_along(c, sides.drop_first())
    }
}

/// Appends a copy of every item of `from` to `to`.
fn append_copies<E: Copy>(to: &mut Vec<E>, from: &Vec<E>)
    ensures
        final(to)@ == old(to)@ + from@,
{
    let n = from.len();
    let mut i: usize = 0;
    while i < n
        invariant
            n == from@.len(),
            i <= n,
            to@ == old(to)@ + from@.subrange(0, i as int),
        decreases n - i,
    {
        to.push(from[i]);
        i += 1;
        assert(from@.subrange(0, i as int) =~= from@.subrange(0, i - 1) + seq![from@[i - 1]]);
        assert(to@ =~= old(to)@ + from@.subrange(0, i as int));
    }
    assert(from@.subrange(0, n as int) =~= from@);
}

impl<E> CardinalConnections<E> {
    /// The links on one side.
    pub open spec fn spec_side_links(self, side: Side) -> Seq<E> {
        match side {
            Side::North => self.northern@,
            Side::East => self.eastern@,
            Side::South => self.southern@,
            Side::West => self.western@,
        }
    }

    /// Every link: northern, then eastern, southern and western ones.
    pub open spec fn spec_all(self) -> Seq<E> {
        self.northern@ + self.eastern@ + self.southern@ + self.western@
    }
}

impl<E> Default for CardinalConnections<E> {
    /// No links on any side.
    fn default() -> (r: Self)
        ensures
            r.northern@ == Seq::<E>::empty(),
            r.eastern@ == Seq::<E>::empty(),
            r.southern@ == Seq::<E>::empty(),
            r.western@ == Seq::<E>::empty(),
    {
        CardinalConnections {
            northern: Vec::new(),
            eastern: Vec::new(),
            southern: Vec::new(),
            western: Vec::new(),
        }
    }
}

impl<E: Copy> CardinalConnections<E> {
    /// Gets a copy of the northern connections.
    pub fn northern(&self) -> (r: Vec<E>)
        ensures
            r@ == self.northern@,
    {
        let mut r: Vec<E> = Vec::new();
        append_copies(&mut r, &self.northern);
        r
    }

    /// Gets a copy of the eastern connections.
    pub fn eastern(&self) -> (r: Vec<E>)
        ensures
            r@ == self.eastern@,
    {
        let mut r: Vec<E> = Vec::new();
        append_copies(&mut r, &self.eastern);
        r
    }

    /// Gets a copy of the southern connections.
    pub fn southern(&self) -> (r: Vec<E>)
        ensures
            r@ == self.southern@,
    {
        let mut r: Vec<E> = Vec::new();
        append_copies(&mut r, &self.southern);
        r
    }

    /// Gets a copy of the western connections.
    pub fn western(&self) -> (r: Vec<E>)
        ensures
            r@ == self.western@,
    {
        let mut r: Vec<E> = Vec::new();
        append_copies(&mut r, &self.western);
        r
    }

    /// Every linked territory: northern, then eastern, southern and western
    /// links.
    pub fn get_all_vec(&self) -> (r: Vec<E>)
        ensures
            r@ == self.spec_all(),
    {
        let mut total_vec: Vec<E> = Vec::new();
        append_copies(&mut total_vec, &self.northern);
        append_copies(&mut total_vec, &self.eastern);
        append_copies(&mut total_vec, &self.southern);
        append_copies(&mut total_vec, &self.western);
        assert(total_vec@ =~= self.spec_all());
        total_vec
    }

    /// The links on the sides the handle moves. A corner handle gets the
    /// links of both its sides, north or south first.
    pub fn get_resize_direction_vec<T: Copy>(&self, resize_direction: ResizeDirection<T>) -> (r: Vec<E>)
        ensures
            r@ == links_along(*self, resize_direction.spec_sides()),
    {
        let mut result_vec: Vec<E> = Vec::new();
        match resize_direction {
            ResizeDirection::North { .. } => {
                append_copies(&mut result_vec, &self.northern);
            },
            ResizeDirection::NorthEast { .. } => {
                append_copies(&mut result_vec, &self.northern);
                append_copies(&mut result_vec, &self.eastern);
            },
            ResizeDirection::East { .. } => {
                append_copies(&mut result_vec, &self.eastern);
            },
            ResizeDirection::SouthEast { .. } => {
                append_copies(&mut result_vec, &self.southern);
                append_copies(&mut result_vec, &self.eastern);
            },
            ResizeDirection::South { .. } => {
                append_copies(&mut result_vec, &self.southern);
            },
            ResizeDirection::SouthWest { .. } => {
                append_copies(&mut result_vec, &self.southern);
                append_copies(&mut result_vec, &self.western);
            },
            ResizeDirection::West { .. } => {
                append_copies(&mut result_vec, &self.western);
            },
            ResizeDirection::NorthWest { .. } => {
                append_copies(&mut result_vec, &self.northern);
                append_copies(&mut result_vec, &self.western);
            },
        }
        proof {
            let sides = resize_direction.spec_sides();
            reveal_with_fuel(links_along, 3);
            assert(sides.drop_first().len() < 2);
            if sides.len() == 2 {
                assert(sides.drop_first().drop_first() =~= Seq::<Side>::empty());
            } else {
                assert(sides.drop_first() =~= Seq::<Side>::empty());
            }
            assert(result_vec@ =~= links_along(*self, sides));
        }
        result_vec
    }
}


proof fn lemma_links_along_single<E>(c: CardinalConnections<E>, side: Side)
    ensures
        links_along(c, seq![side]) == c.spec_side_links(side),
{
    reveal_with_fuel(links_along, 2);
    assert(seq![side].drop_first() =~= Seq::<Side>::empty());
    assert(c.spec_side_links(side) + Seq::<E>::empty() =~= c.spec_side_links(side));
}

proof fn lemma_links_along_pair<E>(c: CardinalConnections<E>, a: Side, b: Side)
    ensures
        links_along(c, seq![a, b]) == c.spec_side_links(a) + c.spec_side_links(b),
{
    reveal_with_fuel(links_along, 3);
    assert(seq![a, b].drop_first() =~= seq![b]);
    lemma_links_along_single(c, b);
}

/// The links of a handle are the links of its single-sided parts, one part
/// after the other.
pub proof fn lemma_direction_links_are_part_links<E, T: Copy>(
    c: CardinalConnections<E>,
    d: ResizeDirection<T>,
)
    ensures
        d.spec_cardinal_directions().len() == 1 ==> links_along(c, d.spec_sides())
            == links_along(c, d.spec_cardinal_directions()[0].spec_sides()),
        d.spec_cardinal_directions().len() == 2 ==> links_along(c, d.spec_sides())
            == links_along(c, d.spec_cardinal_directions()[0].spec_sides())
                + links_along(c, d.spec_cardinal_directions()[1].spec_sides()),
{
    let sides = d.spec_sides();
    if sides.len() == 2 {
        lemma_links_along_pair(c, sides[0], sides[1]);
        lemma_links_along_single(c, sides[0]);
        lemma_links_along_single(c, sides[1]);
        assert(sides =~= seq![sides[0], sides[1]]);
    } else {
        assert(sides =~= seq![sides[0]]);
    }
}

/// The four single-sided handles, north, east, south and west, together
/// reach every link, in the order of [`CardinalConnections::get_all_vec`];
/// so every link reached through a handle is one of all the links.
#[verifier::spinoff_prover]
pub proof fn lemma_direction_links_within_all<E, T: Copy>(
    c: CardinalConnections<E>,
    d: ResizeDirection<T>,
)
    ensures
        links_along(c, seq![Side::North, Side::East, Side::South, Side::West]) == c.spec_all(),
        forall|x: E| #[trigger] links_along(c, d.spec_sides()).contains(x) ==> c.spec_all().contains(x),
{
    reveal_with_fuel(links_along, 5);
    let all4 = seq![Side::North, Side::East, Side::South, Side::West];
    assert(all4.drop_first() =~= seq![Side::East, Side::South, Side::West]);
    assert(all4.drop_first().drop_first() =~= seq![Side::South, Side::West]);
    assert(all4.drop_first().drop_first().drop_first() =~= seq![Side::West]);
    assert(all4.drop_first().drop_first().drop_first().drop_first() =~= Seq::<Side>::empty());
    assert(links_along(c, all4) =~= c.spec_all());
    let sides = d.spec_sides();
    assert forall|x: E| #[trigger] links_along(c, sides).contains(x) implies c.spec_all().contains(x) by {
        let n = c.northern@;
        let e = c.eastern@;
        let s = c.southern@;
        let w = c.western@;
        let k = choose|k: int| 0 <= k < links_along(c, sides).len() && links_along(c, sides)[k] == x;
        if sides.len() == 2 {
            lemma_links_along_pair(c, sides[0], sides[1]);
            assert(sides =~= seq![sides[0], sides[1]]);
        } else {
            lemma_links_along_single(c, sides[0]);
            assert(sides =~= seq![sides[0]]);
        }
        let side_of = |side: Side| c.spec_side_links(side);
        let offset = |side: Side| match side {
            Side::North => 0int,
            Side::East => n.len() as int,
            Side::South => (n.len() + e.len()) as int,
            Side::West => (n.len() + e.len() + s.len()) as int,
        };
        let (side, j) = if sides.len() == 2 && k >= c.spec_side_links(sides[0]).len() {
            (sides[1], k - c.spec_side_links(sides[0]).len())
        } else {
            (sides[0], k)
        };
        assert(side_of(side)[j] == x);
        assert(c.spec_all()[offset(side) + j] == x);
    }
}

} // verus!
