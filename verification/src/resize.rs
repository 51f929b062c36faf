//! Resize handles: which sides of a territory a handle acts on, and how far
//! each of those sides advances (grows the territory) or retreats (shrinks it).
use vstd::prelude::*;

verus! {

/// What is the trend of a side of a [`ResizeDirection`]? Is it growing or
/// shrinking the rectangle? The payload is the extent of the motion.
#[derive(Clone, Copy, Debug, PartialEq, Default)]
pub enum ResizeMagnitude<T> {
    #[default]
    Unchanged,
    Advancing(T),
    Retreating(T),
}

impl<T: Copy> ResizeMagnitude<T> {
    /// The opposite trend, keeping the extent.
    pub open spec fn spec_opposite(self) -> ResizeMagnitude<T> {
        match self {
            ResizeMagnitude::Unchanged => ResizeMagnitude::Unchanged,
            ResizeMagnitude::Advancing(x) => ResizeMagnitude::Retreating(x),
            ResizeMagnitude::Retreating(x) => ResizeMagnitude::Advancing(x),
        }
    }

    /// Gets the extent carried by the magnitude, or `none_extent` for
    /// [`ResizeMagnitude::Unchanged`].
    pub fn extent(&self, none_extent: T) -> (r: T)
        ensures
            r == match *self {
                ResizeMagnitude::Unchanged => none_extent,
                ResizeMagnitude::Advancing(x) => x,
                ResizeMagnitude::Retreating(x) => x,
            },
    {
        match self {
            ResizeMagnitude::Unchanged => none_extent,
            ResizeMagnitude::Advancing(x) => *x,
            ResizeMagnitude::Retreating(x) => *x,
        }
    }

    /// Easier-to-read check if [`ResizeMagnitude::Unchanged`].
    pub fn is_none(&self) -> (r: bool)
        ensures
            r == (*self is Unchanged),
    {
        matches!(self, ResizeMagnitude::Unchanged)
    }

    /// Easier-to-read check if [`ResizeMagnitude::Advancing`].
    pub fn is_advancing(&self) -> (r: bool)
        ensures
            r == (*self is Advancing),
    {
        matches!(self, ResizeMagnitude::Advancing(_))
    }

    /// Easier-to-read check if [`ResizeMagnitude::Retreating`].
    pub fn is_retreating(&self) -> (r: bool)
        ensures
            r == (*self is Retreating),
    {
        matches!(self, ResizeMagnitude::Retreating(_))
    }

    /// Advancing becomes retreating and the other way round, with the same
    /// extent; unchanged stays unchanged.
    pub fn get_opposite(&self) -> (r: ResizeMagnitude<T>)
        ensures
            r == self.spec_opposite(),
    {
        match self {
            ResizeMagnitude::Unchanged => ResizeMagnitude::Unchanged,
            ResizeMagnitude::Advancing(x) => ResizeMagnitude::Retreating(*x),
            ResizeMagnitude::Retreating(x) => ResizeMagnitude::Advancing(*x),
        }
    }
}

/// Taking the opposite magnitude twice gives back the magnitude; the
/// opposite keeps the extent and swaps advancing with retreating.
pub proof fn lemma_magnitude_opposite_involution<T: Copy>(m: ResizeMagnitude<T>)
    ensures
        m.spec_opposite().spec_opposite() == m,
        m.spec_opposite() is Advancing <==> m is Retreating,
        m.spec_opposite() is Retreating <==> m is Advancing,
        m.spec_opposite() is Unchanged <==> m is Unchanged,
        m matches ResizeMagnitude::Advancing(x) ==> m.spec_opposite() == ResizeMagnitude::Retreating(x),
        m matches ResizeMagnitude::Retreating(x) ==> m.spec_opposite() == ResizeMagnitude::Advancing(x),
{
}

/// One side of a rectangle, named by the compass point it faces.
/// Screenspace coordinates grow to the east and to the south.
#[derive(Clone, Copy, Debug, PartialEq, Eq, Structural)]
pub enum Side {
    North,
    East,
    South,
    West,
}

impl Side {
    /// The side facing the other way.
    pub open spec fn spec_opposite(self) -> Side {
        match self {
            Side::North => Side::South,
            Side::East => Side::West,
            Side::South => Side::North,
            Side::West => Side::East,
        }
    }

    /// Whether moving this side outward increases its screenspace coordinate.
    pub open spec fn spec_outward_is_increasing(self) -> bool {
        self is East || self is South
    }

    /// Whether this side lies along the horizontal axis of motion (its
    /// coordinate is an x coordinate).
    pub open spec fn spec_moves_along_x(self) -> bool {
        self is East || self is West
    }
}

/// The sign of one component of a screenspace mouse delta, with its absolute
/// value. `Unordered` stands for a component that compares neither below,
/// equal to, nor above zero.
#[derive(Clone, Copy, Debug, PartialEq)]
pub enum AxisDelta<T> {
    Negative(T),
    Zero,
    Positive(T),
    Unordered,
}

/// How far one side of a rectangle must move, and whether it moves outward
/// (growing the rectangle) or inward.
#[derive(Clone, Copy, Debug, PartialEq)]
pub struct EdgeShift<T> {
    pub side: Side,
    pub amount: T,
    pub outward: bool,
}

/// The magnitude that a delta component gives to a side: motion away from the
/// rectangle advances the side, motion toward it retreats, and no motion (or
/// an unordered component) leaves it unchanged.
pub open spec fn magnitude_from_delta<T>(side: Side, delta: AxisDelta<T>) -> ResizeMagnitude<T> {
    match delta {
        AxisDelta::Negative(a) => if side.spec_outward_is_increasing() {
            ResizeMagnitude::Retreating(a)
        } else {
            ResizeMagnitude::Advancing(a)
        },
        AxisDelta::Positive(a) => if side.spec_outward_is_increasing() {
            ResizeMagnitude::Advancing(a)
        } else {
            ResizeMagnitude::Retreating(a)
        },
        AxisDelta::Zero => ResizeMagnitude::Unchanged,
        AxisDelta::Unordered => ResizeMagnitude::Unchanged,
    }
}

/// The edge shift a side with the given magnitude asks for: none when the
/// magnitude is unchanged.
pub open spec fn shift_for<T>(side: Side, m: ResizeMagnitude<T>) -> Seq<EdgeShift<T>> {
    match m {
        ResizeMagnitude::Unchanged => Seq::empty(),
        ResizeMagnitude::Advancing(a) => seq![EdgeShift { side, amount: a, outward: true }],
        ResizeMagnitude::Retreating(a) => seq![EdgeShift { side, amount: a, outward: false }],
    }
}

fn magnitude_for_side<T: Copy>(side: Side, delta: AxisDelta<T>) -> (r: ResizeMagnitude<T>)
    ensures
        r == magnitude_from_delta(side, delta),
{
    let increasing = match side {
        Side::East | Side::South => true,
        Side::North | Side::West => false,
    };
    match delta {
        AxisDelta::Negative(a) => if increasing {
            ResizeMagnitude::Retreating(a)
        } else {
            ResizeMagnitude::Advancing(a)
        },
        AxisDelta::Positive(a) => if increasing {
            ResizeMagnitude::Advancing(a)
        } else {
            ResizeMagnitude::Retreating(a)
        },
        AxisDelta::Zero => ResizeMagnitude::Unchanged,
        AxisDelta::Unordered => ResizeMagnitude::Unchanged,
    }
}

fn push_shift<T: Copy>(shifts: &mut Vec<EdgeShift<T>>, side: Side, m: ResizeMagnitude<T>)
    ensures
        final(shifts)@ == old(shifts)@ + shift_for(side, m),
{
    match m {
        ResizeMagnitude::Unchanged => {
            assert(old(shifts)@ + shift_for(side, m) =~= old(shifts)@);
        },
        ResizeMagnitude::Advancing(a) => {
            shifts.push(EdgeShift { side, amount: a, outward: true });
        },
        ResizeMagnitude::Retreating(a) => {
            shifts.push(EdgeShift { side, amount: a, outward: false });
        },
    }
}

/// A resize handle: the side or corner of a territory being dragged, with the
/// magnitude of motion of each side it moves.
#[derive(Clone, Copy, Debug, PartialEq)]
pub enum ResizeDirection<T> {
    North { northward_magnitude: ResizeMagnitude<T> },
    NorthEast { northward_magnitude: ResizeMagnitude<T>, eastward_magnitude: ResizeMagnitude<T> },
    East { eastward_magnitude: ResizeMagnitude<T> },
    SouthEast { southward_magnitude: ResizeMagnitude<T>, eastward_magnitude: ResizeMagnitude<T> },
    South { southward_magnitude: ResizeMagnitude<T> },
    SouthWest { southward_magnitude: ResizeMagnitude<T>, westward_magnitude: ResizeMagnitude<T> },
    West { westward_magnitude: ResizeMagnitude<T> },
    NorthWest { northward_magnitude: ResizeMagnitude<T>, westward_magnitude: ResizeMagnitude<T> },
}

impl<T: Copy> ResizeDirection<T> {
    /// The sides the handle moves, in the order north or south first, then
    /// east or west.
    pub open spec fn spec_sides(self) -> Seq<Side> {
        match self {
            ResizeDirection::North { .. } => seq![Side::North],
            ResizeDirection::NorthEast { .. } => seq![Side::North, Side::East],
            ResizeDirection::East { .. } => seq![Side::East],
            ResizeDirection::SouthEast { .. } => seq![Side::South, Side::East],
            ResizeDirection::South { .. } => seq![Side::South],
            ResizeDirection::SouthWest { .. } => seq![Side::South, Side::West],
            ResizeDirection::West { .. } => seq![Side::West],
            ResizeDirection::NorthWest { .. } => seq![Side::North, Side::West],
        }
    }

    /// The magnitude the handle carries for `side`, or `None` when the handle
    /// does not move that side.
    pub open spec fn spec_side_magnitude(self, side: Side) -> Option<ResizeMagnitude<T>> {
        match self {
            ResizeDirection::North { northward_magnitude: n } =>
                if side is North { Some(n) } else { None },
            ResizeDirection::NorthEast { northward_magnitude: n, eastward_magnitude: e } =>
                if side is North { Some(n) } else if side is East { Some(e) } else { None },
            ResizeDirection::East { eastward_magnitude: e } =>
                if side is East { Some(e) } else { None },
            ResizeDirection::SouthEast { southward_magnitude: s, eastward_magnitude: e } =>
                if side is South { Some(s) } else if side is East { Some(e) } else { None },
            ResizeDirection::South { southward_magnitude: s } =>
                if side is South { Some(s) } else { None },
            ResizeDirection::SouthWest { southward_magnitude: s, westward_magnitude: w } =>
                if side is South { Some(s) } else if side is West { Some(w) } else { None },
            ResizeDirection::West { westward_magnitude: w } =>
                if side is West { Some(w) } else { None },
            ResizeDirection::NorthWest { northward_magnitude: n, westward_magnitude: w } =>
                if side is North { Some(n) } else if side is West { Some(w) } else { None },
        }
    }

    /// The magnitude of a single-sided handle; corners give unchanged.
    pub open spec fn spec_single_magnitude(self) -> ResizeMagnitude<T> {
        match self {
            ResizeDirection::North { northward_magnitude } => northward_magnitude,
            ResizeDirection::East { eastward_magnitude } => eastward_magnitude,
            ResizeDirection::South { southward_magnitude } => southward_magnitude,
            ResizeDirection::West { westward_magnitude } => westward_magnitude,
            _ => ResizeMagnitude::Unchanged,
        }
    }

    /// The handle on the opposite side or corner, each magnitude reversed.
    pub open spec fn spec_opposite(self) -> ResizeDirection<T> {
        match self {
            ResizeDirection::North { northward_magnitude: n } =>
                ResizeDirection::South { southward_magnitude: n.spec_opposite() },
            ResizeDirection::NorthEast { northward_magnitude: n, eastward_magnitude: e } =>
                ResizeDirection::SouthWest {
                    southward_magnitude: n.spec_opposite(),
                    westward_magnitude: e.spec_opposite(),
                },
            ResizeDirection::East { eastward_magnitude: e } =>
                ResizeDirection::West { westward_magnitude: e.spec_opposite() },
            ResizeDirection::SouthEast { southward_magnitude: s, eastward_magnitude: e } =>
                ResizeDirection::NorthWest {
                    northward_magnitude: s.spec_opposite(),
                    westward_magnitude: e.spec_opposite(),
                },
            ResizeDirection::South { southward_magnitude: s } =>
                ResizeDirection::North { northward_magnitude: s.spec_opposite() },
            ResizeDirection::SouthWest { southward_magnitude: s, westward_magnitude: w } =>
                ResizeDirection::NorthEast {
                    northward_magnitude: s.spec_opposite(),
                    eastward_magnitude: w.spec_opposite(),
                },
            ResizeDirection::West { westward_magnitude: w } =>
                ResizeDirection::East { eastward_magnitude: w.spec_opposite() },
            ResizeDirection::NorthWest { northward_magnitude: n, westward_magnitude: w } =>
                ResizeDirection::SouthEast {
                    southward_magnitude: n.spec_opposite(),
                    eastward_magnitude: w.spec_opposite(),
                },
        }
    }

    /// The single-sided handles the handle breaks down into, magnitudes kept.
    pub open spec fn spec_cardinal_directions(self) -> Seq<ResizeDirection<T>> {
        match self {
            ResizeDirection::North { northward_magnitude: n } =>
                seq![ResizeDirection::North { northward_magnitude: n }],
            ResizeDirection::NorthEast { northward_magnitude: n, eastward_magnitude: e } =>
                seq![ResizeDirection::North { northward_magnitude: n }, ResizeDirection::East { eastward_magnitude: e }],
            ResizeDirection::East { eastward_magnitude: e } =>
                seq![ResizeDirection::East { eastward_magnitude: e }],
            ResizeDirection::SouthEast { southward_magnitude: s, eastward_magnitude: e } =>
                seq![ResizeDirection::South { southward_magnitude: s }, ResizeDirection::East { eastward_magnitude: e }],
            ResizeDirection::South { southward_magnitude: s } =>
                seq![ResizeDirection::South { southward_magnitude: s }],
            ResizeDirection::SouthWest { southward_magnitude: s, westward_magnitude: w } =>
                seq![ResizeDirection::South { southward_magnitude: s }, ResizeDirection::West { westward_magnitude: w }],
            ResizeDirection::West { westward_magnitude: w } =>
                seq![ResizeDirection::West { westward_magnitude: w }],
            ResizeDirection::NorthWest { northward_magnitude: n, westward_magnitude: w } =>
                seq![ResizeDirection::North { northward_magnitude: n }, ResizeDirection::West { westward_magnitude: w }],
        }
    }

    /// The (row, column) cell, counted from 1, of the handle in a 3 x 3 grid
    /// laid out like a compass.
    pub open spec fn spec_grid_location(self) -> (i16, i16) {
        match self {
            ResizeDirection::North { .. } => (1, 2),
            ResizeDirection::NorthEast { .. } => (1, 3),
            ResizeDirection::East { .. } => (2, 3),
            ResizeDirection::SouthEast { .. } => (3, 3),
            ResizeDirection::South { .. } => (3, 2),
            ResizeDirection::SouthWest { .. } => (3, 1),
            ResizeDirection::West { .. } => (2, 1),
            ResizeDirection::NorthWest { .. } => (1, 1),
        }
    }

    /// Whether the handle moves a side whose magnitude is not unchanged.
    pub open spec fn spec_is_active_on(self, side: Side) -> bool {
        self.spec_side_magnitude(side) matches Some(m) && !(m is Unchanged)
    }

    /// More than one side of the handle has an advancing or retreating magnitude.
    pub open spec fn spec_is_multi_side(self) -> bool {
        exists|a: Side, b: Side| a != b && self.spec_is_active_on(a) && self.spec_is_active_on(b)
    }

    /// Every side of the handle has an unchanged magnitude.
    pub open spec fn spec_all_unchanged(self) -> bool {
        forall|s: Side| !self.spec_is_active_on(s)
    }

    /// Whether the handle moves `side` with a retreating magnitude.
    pub open spec fn spec_is_retreating_on(self, side: Side) -> bool {
        self.spec_side_magnitude(side) matches Some(m) && m is Retreating
    }

    /// Some side of the handle retreats.
    pub open spec fn spec_any_retreating(self) -> bool {
        exists|s: Side| self.spec_is_retreating_on(s)
    }

    /// The same handle with every magnitude taken from a screenspace delta:
    /// east and west sides from the x component, north and south from the y
    /// component.
    pub open spec fn spec_with_delta(self, dx: AxisDelta<T>, dy: AxisDelta<T>) -> ResizeDirection<T> {
        match self {
            ResizeDirection::North { .. } =>
                ResizeDirection::North { northward_magnitude: magnitude_from_delta(Side::North, dy) },
            ResizeDirection::NorthEast { .. } => ResizeDirection::NorthEast {
                northward_magnitude: magnitude_from_delta(Side::North, dy),
                eastward_magnitude: magnitude_from_delta(Side::East, dx),
            },
            ResizeDirection::East { .. } =>
                ResizeDirection::East { eastward_magnitude: magnitude_from_delta(Side::East, dx) },
            ResizeDirection::SouthEast { .. } => ResizeDirection::SouthEast {
                southward_magnitude: magnitude_from_delta(Side::South, dy),
                eastward_magnitude: magnitude_from_delta(Side::East, dx),
            },
            ResizeDirection::South { .. } =>
                ResizeDirection::South { southward_magnitude: magnitude_from_delta(Side::South, dy) },
            ResizeDirection::SouthWest { .. } => ResizeDirection::SouthWest {
                southward_magnitude: magnitude_from_delta(Side::South, dy),
                westward_magnitude: magnitude_from_delta(Side::West, dx),
            },
            ResizeDirection::West { .. } =>
                ResizeDirection::West { westward_magnitude: magnitude_from_delta(Side::West, dx) },
            ResizeDirection::NorthWest { .. } => ResizeDirection::NorthWest {
                northward_magnitude: magnitude_from_delta(Side::North, dy),
                westward_magnitude: magnitude_from_delta(Side::West, dx),
            },
        }
    }

    /// The edge shifts that applying the handle to a rectangle makes, in the
    /// order of [`ResizeDirection::spec_sides`], skipping unchanged sides.
    pub open spec fn spec_edge_shifts(self) -> Seq<EdgeShift<T>> {
        match self {
            ResizeDirection::North { northward_magnitude: n } => shift_for(Side::North, n),
            ResizeDirection::NorthEast { northward_magnitude: n, eastward_magnitude: e } =>
                shift_for(Side::North, n) + shift_for(Side::East, e),
            ResizeDirection::East { eastward_magnitude: e } => shift_for(Side::East, e),
            ResizeDirection::SouthEast { southward_magnitude: s, eastward_magnitude: e } =>
                shift_for(Side::South, s) + shift_for(Side::East, e),
            ResizeDirection::South { southward_magnitude: s } => shift_for(Side::South, s),
            ResizeDirection::SouthWest { southward_magnitude: s, westward_magnitude: w } =>
                shift_for(Side::South, s) + shift_for(Side::West, w),
            ResizeDirection::West { westward_magnitude: w } => shift_for(Side::West, w),
            ResizeDirection::NorthWest { northward_magnitude: n, westward_magnitude: w } =>
                shift_for(Side::North, n) + shift_for(Side::West, w),
        }
    }
}


impl<T: Copy> ResizeDirection<T> {
    /// Every handle, each with unchanged magnitudes, clockwise from north.
    pub fn ordinal() -> (r: [ResizeDirection<T>; 8])
        ensures
            r@ == seq![
                ResizeDirection::North { northward_magnitude: ResizeMagnitude::<T>::Unchanged },
                ResizeDirection::NorthEast {
                    northward_magnitude: ResizeMagnitude::Unchanged,
                    eastward_magnitude: ResizeMagnitude::Unchanged,
                },
                ResizeDirection::East { eastward_magnitude: ResizeMagnitude::Unchanged },
                ResizeDirection::SouthEast {
                    southward_magnitude: ResizeMagnitude::Unchanged,
                    eastward_magnitude: ResizeMagnitude::Unchanged,
                },
                ResizeDirection::South { southward_magnitude: ResizeMagnitude::Unchanged },
                ResizeDirection::SouthWest {
                    southward_magnitude: ResizeMagnitude::Unchanged,
                    westward_magnitude: ResizeMagnitude::Unchanged,
                },
                ResizeDirection::West { westward_magnitude: ResizeMagnitude::Unchanged },
                ResizeDirection::NorthWest {
                    northward_magnitude: ResizeMagnitude::Unchanged,
                    westward_magnitude: ResizeMagnitude::Unchanged,
                },
            ],
    {
        let u = ResizeMagnitude::Unchanged;
        let r = [
            ResizeDirection::North { northward_magnitude: u },
            ResizeDirection::NorthEast { northward_magnitude: u, eastward_magnitude: u },
            ResizeDirection::East { eastward_magnitude: u },
            ResizeDirection::SouthEast { southward_magnitude: u, eastward_magnitude: u },
            ResizeDirection::South { southward_magnitude: u },
            ResizeDirection::SouthWest { southward_magnitude: u, westward_magnitude: u },
            ResizeDirection::West { westward_magnitude: u },
            ResizeDirection::NorthWest { northward_magnitude: u, westward_magnitude: u },
        ];
        assert(r@ =~= seq![
            ResizeDirection::North { northward_magnitude: u },
            ResizeDirection::NorthEast { northward_magnitude: u, eastward_magnitude: u },
            ResizeDirection::East { eastward_magnitude: u },
            ResizeDirection::SouthEast { southward_magnitude: u, eastward_magnitude: u },
            ResizeDirection::South { southward_magnitude: u },
            ResizeDirection::SouthWest { southward_magnitude: u, westward_magnitude: u },
            ResizeDirection::West { westward_magnitude: u },
            ResizeDirection::NorthWest { northward_magnitude: u, westward_magnitude: u },
        ]);
        r
    }

    /// Gets the magnitude of a single-sided handle (north, east, south or
    /// west). Corner handles give [`ResizeMagnitude::Unchanged`].
    pub fn get_single_magnitude(&self) -> (r: ResizeMagnitude<T>)
        ensures
            r == self.spec_single_magnitude(),
    {
        match self {
            ResizeDirection::North { northward_magnitude } => *northward_magnitude,
            ResizeDirection::East { eastward_magnitude } => *eastward_magnitude,
            ResizeDirection::South { southward_magnitude } => *southward_magnitude,
            ResizeDirection::West { westward_magnitude } => *westward_magnitude,
            ResizeDirection::NorthEast { .. }
            | ResizeDirection::SouthEast { .. }
            | ResizeDirection::SouthWest { .. }
            | ResizeDirection::NorthWest { .. } => ResizeMagnitude::Unchanged,
        }
    }

    /// Gets the opposite resize direction, each magnitude reversed.
    pub fn get_opposite(&self) -> (r: ResizeDirection<T>)
        ensures
            r == self.spec_opposite(),
    {
        match self {
            ResizeDirection::North { northward_magnitude } =>
                ResizeDirection::South { southward_magnitude: northward_magnitude.get_opposite() },
            ResizeDirection::NorthEast { northward_magnitude, eastward_magnitude } =>
                ResizeDirection::SouthWest {
                    southward_magnitude: northward_magnitude.get_opposite(),
                    westward_magnitude: eastward_magnitude.get_opposite(),
                },
            ResizeDirection::East { eastward_magnitude } =>
                ResizeDirection::West { westward_magnitude: eastward_magnitude.get_opposite() },
            ResizeDirection::SouthEast { southward_magnitude, eastward_magnitude } =>
                ResizeDirection::NorthWest {
                    northward_magnitude: southward_magnitude.get_opposite(),
                    westward_magnitude: eastward_magnitude.get_opposite(),
                },
            ResizeDirection::South { southward_magnitude } =>
                ResizeDirection::North { northward_magnitude: southward_magnitude.get_opposite() },
            ResizeDirection::SouthWest { southward_magnitude, westward_magnitude } =>
                ResizeDirection::NorthEast {
                    northward_magnitude: southward_magnitude.get_opposite(),
                    eastward_magnitude: westward_magnitude.get_opposite(),
                },
            ResizeDirection::West { westward_magnitude } =>
                ResizeDirection::East { eastward_magnitude: westward_magnitude.get_opposite() },
            ResizeDirection::NorthWest { northward_magnitude, westward_magnitude } =>
                ResizeDirection::SouthEast {
                    southward_magnitude: northward_magnitude.get_opposite(),
                    eastward_magnitude: westward_magnitude.get_opposite(),
                },
        }
    }

    /// Breaks the handle down into its single-sided parts:
    /// south-west gives south then west. All magnitudes transfer.
    pub fn get_cardinal_directions(&self) -> (r: Vec<ResizeDirection<T>>)
        ensures
            r@ == self.spec_cardinal_directions(),
    {
        let mut result_vec: Vec<ResizeDirection<T>> = Vec::new();
        match self {
            ResizeDirection::North { northward_magnitude } => {
                result_vec.push(ResizeDirection::North { northward_magnitude: *northward_magnitude });
            },
            ResizeDirection::NorthEast { northward_magnitude, eastward_magnitude } => {
                result_vec.push(ResizeDirection::North { northward_magnitude: *northward_magnitude });
                result_vec.push(ResizeDirection::East { eastward_magnitude: *eastward_magnitude });
            },
            ResizeDirection::East { eastward_magnitude } => {
                result_vec.push(ResizeDirection::East { eastward_magnitude: *eastward_magnitude });
            },
            ResizeDirection::SouthEast { southward_magnitude, eastward_magnitude } => {
                result_vec.push(ResizeDirection::South { southward_magnitude: *southward_magnitude });
                result_vec.push(ResizeDirection::East { eastward_magnitude: *eastward_magnitude });
            },
            ResizeDirection::South { southward_magnitude } => {
                result_vec.push(ResizeDirection::South { southward_magnitude: *southward_magnitude });
            },
            ResizeDirection::SouthWest { southward_magnitude, westward_magnitude } => {
                result_vec.push(ResizeDirection::South { southward_magnitude: *southward_magnitude });
                result_vec.push(ResizeDirection::West { westward_magnitude: *westward_magnitude });
            },
            ResizeDirection::West { westward_magnitude } => {
                result_vec.push(ResizeDirection::West { westward_magnitude: *westward_magnitude });
            },
            ResizeDirection::NorthWest { northward_magnitude, westward_magnitude } => {
                result_vec.push(ResizeDirection::North { northward_magnitude: *northward_magnitude });
                result_vec.push(ResizeDirection::West { westward_magnitude: *westward_magnitude });
            },
        }
        assert(result_vec@ =~= self.spec_cardinal_directions());
        result_vec
    }

    /// The sides the handle moves: north or south first, then east or west.
    pub fn sides(&self) -> (r: Vec<Side>)
        ensures
            r@ == self.spec_sides(),
    {
        let mut v: Vec<Side> = Vec::new();
        match self {
            ResizeDirection::North { .. } => { v.push(Side::North); },
            ResizeDirection::NorthEast { .. } => { v.push(Side::North); v.push(Side::East); },
            ResizeDirection::East { .. } => { v.push(Side::East); },
            ResizeDirection::SouthEast { .. } => { v.push(Side::South); v.push(Side::East); },
            ResizeDirection::South { .. } => { v.push(Side::South); },
            ResizeDirection::SouthWest { .. } => { v.push(Side::South); v.push(Side::West); },
            ResizeDirection::West { .. } => { v.push(Side::West); },
            ResizeDirection::NorthWest { .. } => { v.push(Side::North); v.push(Side::West); },
        }
        assert(v@ =~= self.spec_sides());
        v
    }

    /// The (row, column) placement, counted from 1, of the handle in a 3 x 3
    /// CSS grid: west gives `(2, 1)`.
    pub fn get_css_grid_location(&self) -> (r: (i16, i16))
        ensures
            r == self.spec_grid_location(),
    {
        match self {
            ResizeDirection::North { .. } => (1, 2),
            ResizeDirection::NorthEast { .. } => (1, 3),
            ResizeDirection::East { .. } => (2, 3),
            ResizeDirection::SouthEast { .. } => (3, 3),
            ResizeDirection::South { .. } => (3, 2),
            ResizeDirection::SouthWest { .. } => (3, 1),
            ResizeDirection::West { .. } => (2, 1),
            ResizeDirection::NorthWest { .. } => (1, 1),
        }
    }

    /// The shifts that applying the handle's magnitudes to a screenspace
    /// rectangle makes: an advancing side moves outward by its extent, a
    /// retreating side inward, an unchanged side stays.
    pub fn edge_shifts(&self) -> (r: Vec<EdgeShift<T>>)
        ensures
            r@ == self.spec_edge_shifts(),
    {
        let mut shifts: Vec<EdgeShift<T>> = Vec::new();
        match self {
            ResizeDirection::North { northward_magnitude } => {
                push_shift(&mut shifts, Side::North, *northward_magnitude);
            },
            ResizeDirection::NorthEast { northward_magnitude, eastward_magnitude } => {
                push_shift(&mut shifts, Side::North, *northward_magnitude);
                push_shift(&mut shifts, Side::East, *eastward_magnitude);
            },
            ResizeDirection::East { eastward_magnitude } => {
                push_shift(&mut shifts, Side::East, *eastward_magnitude);
            },
            ResizeDirection::SouthEast { southward_magnitude, eastward_magnitude } => {
                push_shift(&mut shifts, Side::South, *southward_magnitude);
                push_shift(&mut shifts, Side::East, *eastward_magnitude);
            },
            ResizeDirection::South { southward_magnitude } => {
                push_shift(&mut shifts, Side::South, *southward_magnitude);
            },
            ResizeDirection::SouthWest { southward_magnitude, westward_magnitude } => {
                push_shift(&mut shifts, Side::South, *southward_magnitude);
                push_shift(&mut shifts, Side::West, *westward_magnitude);
            },
            ResizeDirection::West { westward_magnitude } => {
                push_shift(&mut shifts, Side::West, *westward_magnitude);
            },
            ResizeDirection::NorthWest { northward_magnitude, westward_magnitude } => {
                push_shift(&mut shifts, Side::North, *northward_magnitude);
                push_shift(&mut shifts, Side::West, *westward_magnitude);
            },
        }
        assert(shifts@ =~= Seq::<EdgeShift<T>>::empty() + self.spec_edge_shifts()) by {
            assert(Seq::<EdgeShift<T>>::empty() + self.spec_edge_shifts() =~= self.spec_edge_shifts());
        }
        shifts
    }

    /// `true` if more than one side of the handle has an advancing or
    /// retreating magnitude.
    pub fn is_multi_side_resize(&self) -> (r: bool)
        ensures
            r == self.spec_is_multi_side(),
    {
        let mut counter: u8 = 0;
        match self {
            ResizeDirection::North { .. } | ResizeDirection::East { .. }
            | ResizeDirection::South { .. } | ResizeDirection::West { .. } => {
                return false;
            },
            ResizeDirection::NorthEast { northward_magnitude, eastward_magnitude } => {
                if !northward_magnitude.is_none() { counter += 1; }
                if !eastward_magnitude.is_none() { counter += 1; }
                proof {
                    if counter > 1 {
                        assert(self.spec_is_active_on(Side::North) && self.spec_is_active_on(Side::East));
                    }
                }
            },
            ResizeDirection::SouthEast { southward_magnitude, eastward_magnitude } => {
                if !southward_magnitude.is_none() { counter += 1; }
                if !eastward_magnitude.is_none() { counter += 1; }
                proof {
                    if counter > 1 {
                        assert(self.spec_is_active_on(Side::South) && self.spec_is_active_on(Side::East));
                    }
                }
            },
            ResizeDirection::SouthWest { southward_magnitude, westward_magnitude } => {
                if !southward_magnitude.is_none() { counter += 1; }
                if !westward_magnitude.is_none() { counter += 1; }
                proof {
                    if counter > 1 {
                        assert(self.spec_is_active_on(Side::South) && self.spec_is_active_on(Side::West));
                    }
                }
            },
            ResizeDirection::NorthWest { northward_magnitude, westward_magnitude } => {
                if !northward_magnitude.is_none() { counter += 1; }
                if !westward_magnitude.is_none() { counter += 1; }
                proof {
                    if counter > 1 {
                        assert(self.spec_is_active_on(Side::North) && self.spec_is_active_on(Side::West));
                    }
                }
            },
        }
        counter > 1
    }

    /// `true` if every side of the handle has an unchanged magnitude, as in a
    /// handle that has not been set yet.
    pub fn has_all_none_magnitudes(&self) -> (r: bool)
        ensures
            r == self.spec_all_unchanged(),
    {
        proof {
            if !self.spec_is_active_on(Side::North) && !self.spec_is_active_on(Side::East)
                && !self.spec_is_active_on(Side::South) && !self.spec_is_active_on(Side::West) {
                assert forall|s: Side| !self.spec_is_active_on(s) by {
                    match s {
                        Side::North => {},
                        Side::East => {},
                        Side::South => {},
                        Side::West => {},
                    }
                }
            }
        }
        match self {
            ResizeDirection::North { northward_magnitude } => {
                if !northward_magnitude.is_none() {
                    assert(self.spec_is_active_on(Side::North));
                    return false;
                }
            },
            ResizeDirection::NorthEast { northward_magnitude, eastward_magnitude } => {
                if !northward_magnitude.is_none() {
                    assert(self.spec_is_active_on(Side::North));
                    return false;
                }
                if !eastward_magnitude.is_none() {
                    assert(self.spec_is_active_on(Side::East));
                    return false;
                }
            },
            ResizeDirection::East { eastward_magnitude } => {
                if !eastward_magnitude.is_none() {
                    assert(self.spec_is_active_on(Side::East));
                    return false;
                }
            },
            ResizeDirection::SouthEast { southward_magnitude, eastward_magnitude } => {
                if !southward_magnitude.is_none() {
                    assert(self.spec_is_active_on(Side::South));
                    return false;
                }
                if !eastward_magnitude.is_none() {
                    assert(self.spec_is_active_on(Side::East));
                    return false;
                }
            },
            ResizeDirection::South { southward_magnitude } => {
                if !southward_magnitude.is_none() {
                    assert(self.spec_is_active_on(Side::South));
                    return false;
                }
            },
            ResizeDirection::SouthWest { southward_magnitude, westward_magnitude } => {
                if !southward_magnitude.is_none() {
                    assert(self.spec_is_active_on(Side::South));
                    return false;
                }
                if !westward_magnitude.is_none() {
                    assert(self.spec_is_active_on(Side::West));
                    return false;
                }
            },
            ResizeDirection::West { westward_magnitude } => {
                if !westward_magnitude.is_none() {
                    assert(self.spec_is_active_on(Side::West));
                    return false;
                }
            },
            ResizeDirection::NorthWest { northward_magnitude, westward_magnitude } => {
                if !northward_magnitude.is_none() {
                    assert(self.spec_is_active_on(Side::North));
                    return false;
                }
                if !westward_magnitude.is_none() {
                    assert(self.spec_is_active_on(Side::West));
                    return false;
                }
            },
        }
        true
    }

    /// `true` if some side of the handle has a retreating magnitude.
    pub fn has_any_retreating(&self) -> (r: bool)
        ensures
            r == self.spec_any_retreating(),
    {
        proof {
            if self.spec_any_retreating() {
                let s = choose|s: Side| self.spec_is_retreating_on(s);
                assert(self.spec_is_retreating_on(s));
            }
        }
        match self {
            ResizeDirection::North { northward_magnitude } => {
                if northward_magnitude.is_retreating() {
                    assert(self.spec_is_retreating_on(Side::North));
                    return true;
                }
            },
            ResizeDirection::NorthEast { northward_magnitude, eastward_magnitude } => {
                if northward_magnitude.is_retreating() {
                    assert(self.spec_is_retreating_on(Side::North));
                    return true;
                }
                if eastward_magnitude.is_retreating() {
                    assert(self.spec_is_retreating_on(Side::East));
                    return true;
                }
            },
            ResizeDirection::East { eastward_magnitude } => {
                if eastward_magnitude.is_retreating() {
                    assert(self.spec_is_retreating_on(Side::East));
                    return true;
                }
            },
            ResizeDirection::SouthEast { southward_magnitude, eastward_magnitude } => {
                if southward_magnitude.is_retreating() {
                    assert(self.spec_is_retreating_on(Side::South));
                    return true;
                }
                if eastward_magnitude.is_retreating() {
                    assert(self.spec_is_retreating_on(Side::East));
                    return true;
                }
            },
            ResizeDirection::South { southward_magnitude } => {
                if southward_magnitude.is_retreating() {
                    assert(self.spec_is_retreating_on(Side::South));
                    return true;
                }
            },
            ResizeDirection::SouthWest { southward_magnitude, westward_magnitude } => {
                if southward_magnitude.is_retreating() {
                    assert(self.spec_is_retreating_on(Side::South));
                    return true;
                }
                if westward_magnitude.is_retreating() {
                    assert(self.spec_is_retreating_on(Side::West));
                    return true;
                }
            },
            ResizeDirection::West { westward_magnitude } => {
                if westward_magnitude.is_retreating() {
                    assert(self.spec_is_retreating_on(Side::West));
                    return true;
                }
            },
            ResizeDirection::NorthWest { northward_magnitude, westward_magnitude } => {
                if northward_magnitude.is_retreating() {
                    assert(self.spec_is_retreating_on(Side::North));
                    return true;
                }
                if westward_magnitude.is_retreating() {
                    assert(self.spec_is_retreating_on(Side::West));
                    return true;
                }
            },
        }
        false
    }

    /// Using a screenspace delta, sets every magnitude of the handle: the x
    /// component sets east and west sides, the y component north and south
    /// sides. The kind of handle stays the same.
    pub fn set_magnitudes_from_delta(&mut self, delta_x: AxisDelta<T>, delta_y: AxisDelta<T>)
        ensures
            *final(self) == old(self).spec_with_delta(delta_x, delta_y),
    {
        match self {
            ResizeDirection::North { northward_magnitude } => {
                *northward_magnitude = magnitude_for_side(Side::North, delta_y);
            },
            ResizeDirection::NorthEast { northward_magnitude, eastward_magnitude } => {
                *northward_magnitude = magnitude_for_side(Side::North, delta_y);
                *eastward_magnitude = magnitude_for_side(Side::East, delta_x);
            },
            ResizeDirection::East { eastward_magnitude } => {
                *eastward_magnitude = magnitude_for_side(Side::East, delta_x);
            },
            ResizeDirection::SouthEast { southward_magnitude, eastward_magnitude } => {
                *southward_magnitude = magnitude_for_side(Side::South, delta_y);
                *eastward_magnitude = magnitude_for_side(Side::East, delta_x);
            },
            ResizeDirection::South { southward_magnitude } => {
                *southward_magnitude = magnitude_for_side(Side::South, delta_y);
            },
            ResizeDirection::SouthWest { southward_magnitude, westward_magnitude } => {
                *southward_magnitude = magnitude_for_side(Side::South, delta_y);
                *westward_magnitude = magnitude_for_side(Side::West, delta_x);
            },
            ResizeDirection::West { westward_magnitude } => {
                *westward_magnitude = magnitude_for_side(Side::West, delta_x);
            },
            ResizeDirection::NorthWest { northward_magnitude, westward_magnitude } => {
                *northward_magnitude = magnitude_for_side(Side::North, delta_y);
                *westward_magnitude = magnitude_for_side(Side::West, delta_x);
            },
        }
    }
}


/// Taking the opposite handle twice gives back the handle.
pub proof fn lemma_direction_opposite_involution<T: Copy>(d: ResizeDirection<T>)
    ensures
        d.spec_opposite().spec_opposite() == d,
{
    match d {
        ResizeDirection::North { northward_magnitude: n } => lemma_magnitude_opposite_involution(n),
        ResizeDirection::NorthEast { northward_magnitude: n, eastward_magnitude: e } => {
            lemma_magnitude_opposite_involution(n);
            lemma_magnitude_opposite_involution(e);
        },
        ResizeDirection::East { eastward_magnitude: e } => lemma_magnitude_opposite_involution(e),
        ResizeDirection::SouthEast { southward_magnitude: s, eastward_magnitude: e } => {
            lemma_magnitude_opposite_involution(s);
            lemma_magnitude_opposite_involution(e);
        },
        ResizeDirection::South { southward_magnitude: s } => lemma_magnitude_opposite_involution(s),
        ResizeDirection::SouthWest { southward_magnitude: s, westward_magnitude: w } => {
            lemma_magnitude_opposite_involution(s);
            lemma_magnitude_opposite_involution(w);
        },
        ResizeDirection::West { westward_magnitude: w } => lemma_magnitude_opposite_involution(w),
        ResizeDirection::NorthWest { northward_magnitude: n, westward_magnitude: w } => {
            lemma_magnitude_opposite_involution(n);
            lemma_magnitude_opposite_involution(w);
        },
    }
}

/// The opposite handle moves the opposite sides, each with the reversed
/// magnitude of the side it faces away from.
pub proof fn lemma_opposite_side_magnitudes<T: Copy>(d: ResizeDirection<T>, side: Side)
    ensures
        d.spec_opposite().spec_side_magnitude(side.spec_opposite()) == match d.spec_side_magnitude(side) {
            Some(m) => Some(m.spec_opposite()),
            None => None::<ResizeMagnitude<T>>,
        },
        d.spec_opposite().spec_sides() == d.spec_sides().map_values(|s: Side| s.spec_opposite()),
{
    assert(d.spec_opposite().spec_sides() =~= d.spec_sides().map_values(|s: Side| s.spec_opposite()));
}

/// A handle and its opposite agree on whether they are unset and on whether
/// they move more than one side; the opposite retreats exactly where the
/// handle advances.
#[verifier::spinoff_prover]
pub proof fn lemma_opposite_preserves_activity<T: Copy>(d: ResizeDirection<T>)
    ensures
        d.spec_opposite().spec_all_unchanged() == d.spec_all_unchanged(),
        d.spec_opposite().spec_is_multi_side() == d.spec_is_multi_side(),
        forall|s: Side| #[trigger] d.spec_opposite().spec_is_retreating_on(s.spec_opposite())
            <==> (d.spec_side_magnitude(s) matches Some(m) && m is Advancing),
{
    assert forall|s: Side| #[trigger] d.spec_opposite().spec_is_active_on(s.spec_opposite())
        == d.spec_is_active_on(s) by {
        lemma_opposite_side_magnitudes(d, s);
    }
    assert forall|s: Side| #[trigger] d.spec_opposite().spec_is_active_on(s)
        == d.spec_is_active_on(s.spec_opposite()) by {
        lemma_opposite_side_magnitudes(d, s.spec_opposite());
        assert(s.spec_opposite().spec_opposite() == s);
    }
    assert forall|s: Side| #[trigger] d.spec_opposite().spec_is_retreating_on(s.spec_opposite())
        <==> (d.spec_side_magnitude(s) matches Some(m) && m is Advancing) by {
        lemma_opposite_side_magnitudes(d, s);
    }
    if d.spec_all_unchanged() {
        assert forall|s: Side| !d.spec_opposite().spec_is_active_on(s) by {
            assert(!d.spec_is_active_on(s.spec_opposite()));
        }
    }
    if d.spec_opposite().spec_all_unchanged() {
        assert forall|s: Side| !d.spec_is_active_on(s) by {
            assert(!d.spec_opposite().spec_is_active_on(s.spec_opposite()));
        }
    }
    if d.spec_is_multi_side() {
        let (a, b) = choose|a: Side, b: Side|
            a != b && d.spec_is_active_on(a) && d.spec_is_active_on(b);
        assert(d.spec_opposite().spec_is_active_on(a.spec_opposite()));
        assert(d.spec_opposite().spec_is_active_on(b.spec_opposite()));
        assert(a.spec_opposite() != b.spec_opposite());
    }
    if d.spec_opposite().spec_is_multi_side() {
        let (a, b) = choose|a: Side, b: Side|
            a != b && d.spec_opposite().spec_is_active_on(a) && d.spec_opposite().spec_is_active_on(b);
        assert(d.spec_is_active_on(a.spec_opposite()));
        assert(d.spec_is_active_on(b.spec_opposite()));
        assert(a.spec_opposite() != b.spec_opposite());
    }
}

/// In the 3 x 3 grid, the opposite handle sits at the cell mirrored through
/// the centre.
pub proof fn lemma_opposite_grid_location<T: Copy>(d: ResizeDirection<T>)
    ensures
        d.spec_opposite().spec_grid_location().0 == 4 - d.spec_grid_location().0,
        d.spec_opposite().spec_grid_location().1 == 4 - d.spec_grid_location().1,
{
}

/// Setting magnitudes from a delta keeps the kind of handle, gives each moved
/// side the magnitude of the delta component along its axis, and forgets the
/// magnitudes set before: the last delta wins.
pub proof fn lemma_with_delta_sides<T: Copy>(
    d: ResizeDirection<T>,
    dx: AxisDelta<T>,
    dy: AxisDelta<T>,
    dx2: AxisDelta<T>,
    dy2: AxisDelta<T>,
    side: Side,
)
    ensures
        d.spec_with_delta(dx, dy).spec_sides() == d.spec_sides(),
        d.spec_side_magnitude(side) is Some ==> d.spec_with_delta(dx, dy).spec_side_magnitude(side)
            == Some(magnitude_from_delta(side, if side.spec_moves_along_x() { dx } else { dy })),
        d.spec_side_magnitude(side) is None ==> d.spec_with_delta(dx, dy).spec_side_magnitude(side) is None,
        d.spec_with_delta(dx, dy).spec_with_delta(dx2, dy2) == d.spec_with_delta(dx2, dy2),
{
}

/// Opposite sides react oppositely to the same delta component: a motion that
/// advances one retreats the other by the same extent.
pub proof fn lemma_delta_opposite_sides<T: Copy>(side: Side, delta: AxisDelta<T>)
    ensures
        magnitude_from_delta(side.spec_opposite(), delta) == magnitude_from_delta(side, delta).spec_opposite(),
{
}

/// Setting magnitudes from a delta and then taking the opposite handle gives
/// the same handle as taking the opposite first and then setting magnitudes
/// from the same delta.
pub proof fn lemma_with_delta_commutes_with_opposite<T: Copy>(
    d: ResizeDirection<T>,
    dx: AxisDelta<T>,
    dy: AxisDelta<T>,
)
    ensures
        d.spec_with_delta(dx, dy).spec_opposite() == d.spec_opposite().spec_with_delta(dx, dy),
{
    lemma_delta_opposite_sides(Side::North, dy);
    lemma_delta_opposite_sides(Side::South, dy);
    lemma_delta_opposite_sides(Side::East, dx);
    lemma_delta_opposite_sides(Side::West, dx);
}

/// A zero delta leaves every side of the handle unchanged.
pub proof fn lemma_zero_delta_unsets<T: Copy>(d: ResizeDirection<T>)
    ensures
        d.spec_with_delta(AxisDelta::Zero, AxisDelta::Zero).spec_all_unchanged(),
        !d.spec_with_delta(AxisDelta::Zero, AxisDelta::Zero).spec_is_multi_side(),
        !d.spec_with_delta(AxisDelta::Zero, AxisDelta::Zero).spec_any_retreating(),
{
}

/// A handle moving more than one side is a corner handle and is not unset;
/// single-sided handles report their one magnitude as the single magnitude.
pub proof fn lemma_multi_side_is_corner<T: Copy>(d: ResizeDirection<T>)
    ensures
        d.spec_is_multi_side() ==> d.spec_sides().len() == 2 && !d.spec_all_unchanged(),
        d.spec_sides().len() == 1 ==> Some(d.spec_single_magnitude()) == d.spec_side_magnitude(d.spec_sides()[0]),
        d.spec_sides().len() == 2 ==> d.spec_single_magnitude() is Unchanged,
{
    if d.spec_is_multi_side() {
        let (a, b) = choose|a: Side, b: Side| a != b && d.spec_is_active_on(a) && d.spec_is_active_on(b);
        assert(d.spec_is_active_on(a));
    }
}

/// Breaking a handle into its single-sided parts keeps every moved side and
/// its magnitude: the parts move, in order, the sides of the handle, and each
/// part carries the handle's magnitude for its side.
pub proof fn lemma_cardinal_parts<T: Copy>(d: ResizeDirection<T>)
    ensures
        d.spec_cardinal_directions().len() == d.spec_sides().len(),
        forall|i: int| 0 <= i < d.spec_sides().len() ==> {
            &&& #[trigger] d.spec_cardinal_directions()[i].spec_sides() == seq![d.spec_sides()[i]]
            &&& d.spec_cardinal_directions()[i].spec_side_magnitude(d.spec_sides()[i])
                == d.spec_side_magnitude(d.spec_sides()[i])
        },
{
}

proof fn lemma_shift_for<T: Copy>(side: Side, m: ResizeMagnitude<T>)
    ensures
        shift_for(side, m).len() == if m is Unchanged { 0int } else { 1int },
        shift_for(side.spec_opposite(), m.spec_opposite()).len() == shift_for(side, m).len(),
        shift_for(side, m).len() == 1 ==> {
            let sh = shift_for(side, m)[0];
            &&& sh.side == side
            &&& m == if sh.outward {
                ResizeMagnitude::Advancing(sh.amount)
            } else {
                ResizeMagnitude::Retreating(sh.amount)
            }
            &&& shift_for(side.spec_opposite(), m.spec_opposite())[0] == EdgeShift {
                side: side.spec_opposite(),
                amount: sh.amount,
                outward: !sh.outward,
            }
        },
{
}

/// The shifts of a handle with the given sides and magnitudes, the
/// first side first.
proof fn lemma_shift_pair<T: Copy>(a: Side, ma: ResizeMagnitude<T>, b: Side, mb: ResizeMagnitude<T>)
    requires
        a != b,
    ensures
        ({
            let sh = shift_for(a, ma) + shift_for(b, mb);
            let op = shift_for(a.spec_opposite(), ma.spec_opposite()) + shift_for(b.spec_opposite(), mb.spec_opposite());
            &&& op.len() == sh.len()
            &&& forall|i: int| 0 <= i < sh.len() ==> {
                let e = #[trigger] sh[i];
                &&& (e.side == a || e.side == b)
                &&& e.side == a ==> ma == if e.outward {
                    ResizeMagnitude::Advancing(e.amount)
                } else {
                    ResizeMagnitude::Retreating(e.amount)
                }
                &&& e.side == b && e.side != a ==> mb == if e.outward {
                    ResizeMagnitude::Advancing(e.amount)
                } else {
                    ResizeMagnitude::Retreating(e.amount)
                }
                &&& op[i] == EdgeShift { side: e.side.spec_opposite(), amount: e.amount, outward: !e.outward }
            }
        }),
{
    lemma_shift_for(a, ma);
    lemma_shift_for(b, mb);
    let sa = shift_for(a, ma);
    let sb = shift_for(b, mb);
    let oa = shift_for(a.spec_opposite(), ma.spec_opposite());
    let ob = shift_for(b.spec_opposite(), mb.spec_opposite());
    assert forall|i: int| 0 <= i < (sa + sb).len() implies
        (#[trigger] (sa + sb)[i]) == if i < sa.len() { sa[i] } else { sb[i - sa.len()] }
        && (oa + ob)[i] == if i < oa.len() { oa[i] } else { ob[i - oa.len()] } by {}
}

/// Applying a handle shifts exactly its active sides: every shift is on a
/// side the handle moves, advancing sides shift outward and retreating sides
/// inward by their extent, and the opposite handle shifts the opposite sides
/// the other way.
#[verifier::spinoff_prover]
pub proof fn lemma_edge_shifts_follow_magnitudes<T: Copy>(d: ResizeDirection<T>)
    ensures
        forall|i: int| 0 <= i < d.spec_edge_shifts().len() ==> {
            let sh = #[trigger] d.spec_edge_shifts()[i];
            &&& d.spec_sides().contains(sh.side)
            &&& d.spec_side_magnitude(sh.side) == Some(if sh.outward {
                ResizeMagnitude::Advancing(sh.amount)
            } else {
                ResizeMagnitude::Retreating(sh.amount)
            })
        },
        d.spec_opposite().spec_edge_shifts().len() == d.spec_edge_shifts().len(),
        forall|i: int| 0 <= i < d.spec_edge_shifts().len() ==> {
            let sh = #[trigger] d.spec_edge_shifts()[i];
            d.spec_opposite().spec_edge_shifts()[i] == EdgeShift {
                side: sh.side.spec_opposite(),
                amount: sh.amount,
                outward: !sh.outward,
            }
        },
        d.spec_all_unchanged() <==> d.spec_edge_shifts().len() == 0,
{
    let sides = d.spec_sides();
    assert(sides.contains(sides[0]));
    if sides.len() == 2 {
        assert(sides.contains(sides[1]));
    }
    match d {
        ResizeDirection::North { northward_magnitude: n } => {
            lemma_shift_pair(Side::North, n, Side::South, ResizeMagnitude::<T>::Unchanged);
            assert(shift_for(Side::South, ResizeMagnitude::<T>::Unchanged) =~= Seq::empty());
            assert(shift_for(Side::North, ResizeMagnitude::<T>::Unchanged) =~= Seq::empty());
            assert(shift_for(Side::North, n) + Seq::<EdgeShift<T>>::empty() =~= shift_for(Side::North, n));
            assert(shift_for(Side::South, n.spec_opposite()) + Seq::<EdgeShift<T>>::empty()
                =~= shift_for(Side::South, n.spec_opposite()));
        },
        ResizeDirection::East { eastward_magnitude: e } => {
            lemma_shift_pair(Side::East, e, Side::West, ResizeMagnitude::<T>::Unchanged);
            assert(shift_for(Side::West, ResizeMagnitude::<T>::Unchanged) =~= Seq::empty());
            assert(shift_for(Side::East, ResizeMagnitude::<T>::Unchanged) =~= Seq::empty());
            assert(shift_for(Side::East, e) + Seq::<EdgeShift<T>>::empty() =~= shift_for(Side::East, e));
            assert(shift_for(Side::West, e.spec_opposite()) + Seq::<EdgeShift<T>>::empty()
                =~= shift_for(Side::West, e.spec_opposite()));
        },
        ResizeDirection::South { southward_magnitude: m } => {
            lemma_shift_pair(Side::South, m, Side::North, ResizeMagnitude::<T>::Unchanged);
            assert(shift_for(Side::North, ResizeMagnitude::<T>::Unchanged) =~= Seq::empty());
            assert(shift_for(Side::South, ResizeMagnitude::<T>::Unchanged) =~= Seq::empty());
            assert(shift_for(Side::South, m) + Seq::<EdgeShift<T>>::empty() =~= shift_for(Side::South, m));
            assert(shift_for(Side::North, m.spec_opposite()) + Seq::<EdgeShift<T>>::empty()
                =~= shift_for(Side::North, m.spec_opposite()));
        },
        ResizeDirection::West { westward_magnitude: w } => {
            lemma_shift_pair(Side::West, w, Side::East, ResizeMagnitude::<T>::Unchanged);
            assert(shift_for(Side::East, ResizeMagnitude::<T>::Unchanged) =~= Seq::empty());
            assert(shift_for(Side::West, ResizeMagnitude::<T>::Unchanged) =~= Seq::empty());
            assert(shift_for(Side::West, w) + Seq::<EdgeShift<T>>::empty() =~= shift_for(Side::West, w));
            assert(shift_for(Side::East, w.spec_opposite()) + Seq::<EdgeShift<T>>::empty()
                =~= shift_for(Side::East, w.spec_opposite()));
        },
        ResizeDirection::NorthEast { northward_magnitude: n, eastward_magnitude: e } =>
            lemma_shift_pair(Side::North, n, Side::East, e),
        ResizeDirection::SouthEast { southward_magnitude: m, eastward_magnitude: e } =>
            lemma_shift_pair(Side::South, m, Side::East, e),
        ResizeDirection::SouthWest { southward_magnitude: m, westward_magnitude: w } =>
            lemma_shift_pair(Side::South, m, Side::West, w),
        ResizeDirection::NorthWest { northward_magnitude: n, westward_magnitude: w } =>
            lemma_shift_pair(Side::North, n, Side::West, w),
    }
    if !d.spec_all_unchanged() {
        let s = choose|s: Side| d.spec_is_active_on(s);
        assert(d.spec_is_active_on(s));
    }
    if d.spec_all_unchanged() {
        assert(!d.spec_is_active_on(Side::North));
        assert(!d.spec_is_active_on(Side::East));
        assert(!d.spec_is_active_on(Side::South));
        assert(!d.spec_is_active_on(Side::West));
    }
}


/// 1 when the handle moves `side` with a magnitude other than unchanged, else 0.
pub open spec fn active_count_on<T: Copy>(d: ResizeDirection<T>, side: Side) -> int {
    if d.spec_is_active_on(side) { 1 } else { 0 }
}

/// Applying a handle shifts every side it moves with an advancing or
/// retreating magnitude, each exactly once: there is one shift per active
/// side and no side is shifted twice.
#[verifier::spinoff_prover]
pub proof fn lemma_edge_shifts_cover_active_sides<T: Copy>(d: ResizeDirection<T>)
    ensures
        forall|s: Side| d.spec_is_active_on(s) ==>
            exists|i: int| 0 <= i < d.spec_edge_shifts().len() && (#[trigger] d.spec_edge_shifts()[i]).side == s,
        forall|i: int, j: int| 0 <= i < d.spec_edge_shifts().len() && 0 <= j < d.spec_edge_shifts().len() && i != j
            ==> (#[trigger] d.spec_edge_shifts()[i]).side != (#[trigger] d.spec_edge_shifts()[j]).side,
        d.spec_edge_shifts().len() == active_count_on(d, Side::North) + active_count_on(d, Side::East)
            + active_count_on(d, Side::South) + active_count_on(d, Side::West),
{
    lemma_edge_shifts_follow_magnitudes(d);
    let sh = d.spec_edge_shifts();
    match d {
        ResizeDirection::NorthEast { northward_magnitude: n, eastward_magnitude: e } => {
            lemma_shift_for(Side::North, n);
            lemma_shift_for(Side::East, e);
        },
        ResizeDirection::SouthEast { southward_magnitude: m, eastward_magnitude: e } => {
            lemma_shift_for(Side::South, m);
            lemma_shift_for(Side::East, e);
        },
        ResizeDirection::SouthWest { southward_magnitude: m, westward_magnitude: w } => {
            lemma_shift_for(Side::South, m);
            lemma_shift_for(Side::West, w);
        },
        ResizeDirection::NorthWest { northward_magnitude: n, westward_magnitude: w } => {
            lemma_shift_for(Side::North, n);
            lemma_shift_for(Side::West, w);
        },
        ResizeDirection::North { northward_magnitude: n } => lemma_shift_for(Side::North, n),
        ResizeDirection::East { eastward_magnitude: e } => lemma_shift_for(Side::East, e),
        ResizeDirection::South { southward_magnitude: m } => lemma_shift_for(Side::South, m),
        ResizeDirection::West { westward_magnitude: w } => lemma_shift_for(Side::West, w),
    }
    assert forall|s: Side| d.spec_is_active_on(s) implies
        exists|i: int| 0 <= i < sh.len() && (#[trigger] sh[i]).side == s by {
        if sh.len() >= 1 && sh[0].side == s {
            assert(sh[0].side == s);
        } else {
            assert(sh.len() == 2 && sh[1].side == s);
        }
    }
}

/// A delta component advances a side exactly when it moves in the side's
/// outward direction (toward larger screenspace coordinates for east and
/// south, toward smaller ones for north and west), retreats it exactly when
/// it moves the other way, carries the component's absolute value, and
/// leaves the side unchanged when there is no ordered motion.
pub proof fn lemma_delta_moves_sides_outward<T: Copy>(side: Side, a: T)
    ensures
        (magnitude_from_delta(side, AxisDelta::Positive(a)) == ResizeMagnitude::Advancing(a))
            == (side is East || side is South),
        (magnitude_from_delta(side, AxisDelta::Positive(a)) == ResizeMagnitude::Retreating(a))
            == (side is North || side is West),
        (magnitude_from_delta(side, AxisDelta::Negative(a)) == ResizeMagnitude::Advancing(a))
            == (side is North || side is West),
        (magnitude_from_delta(side, AxisDelta::Negative(a)) == ResizeMagnitude::Retreating(a))
            == (side is East || side is South),
        magnitude_from_delta(side, AxisDelta::<T>::Zero) is Unchanged,
        magnitude_from_delta(side, AxisDelta::<T>::Unordered) is Unchanged,
{
}

} // verus!
