use megalith::resize::{AxisDelta, EdgeShift, ResizeDirection, ResizeMagnitude, Side};

type Dir = ResizeDirection<f32>;
type Mag = ResizeMagnitude<f32>;

fn axis(v: f32) -> AxisDelta<f32> {
    if v < 0.0 {
        AxisDelta::Negative(v.abs())
    } else if v == 0.0 {
        AxisDelta::Zero
    } else if v > 0.0 {
        AxisDelta::Positive(v)
    } else {
        AxisDelta::Unordered
    }
}

#[test]
fn magnitude_extent_and_kind() {
    assert_eq!(Mag::Unchanged.extent(0.0), 0.0);
    assert_eq!(Mag::Advancing(3.5).extent(0.0), 3.5);
    assert_eq!(Mag::Retreating(2.0).extent(0.0), 2.0);
    assert!(Mag::Unchanged.is_none());
    assert!(Mag::Advancing(1.0).is_advancing());
    assert!(!Mag::Advancing(1.0).is_retreating());
    assert!(Mag::Retreating(1.0).is_retreating());
    assert_eq!(Mag::default(), Mag::Unchanged);
}

#[test]
fn magnitude_opposite_swaps_and_is_involution() {
    assert_eq!(Mag::Advancing(4.0).get_opposite(), Mag::Retreating(4.0));
    assert_eq!(Mag::Retreating(4.0).get_opposite(), Mag::Advancing(4.0));
    assert_eq!(Mag::Unchanged.get_opposite(), Mag::Unchanged);
    let m = Mag::Advancing(7.25);
    assert_eq!(m.get_opposite().get_opposite(), m);
}

#[test]
fn single_magnitude_of_sides_and_corners() {
    let n = Dir::North { northward_magnitude: Mag::Advancing(2.0) };
    assert_eq!(n.get_single_magnitude(), Mag::Advancing(2.0));
    let ne = Dir::NorthEast { northward_magnitude: Mag::Advancing(2.0), eastward_magnitude: Mag::Retreating(1.0) };
    assert_eq!(ne.get_single_magnitude(), Mag::Unchanged);
}

#[test]
fn direction_opposite_reverses_sides_and_magnitudes() {
    let ne = Dir::NorthEast { northward_magnitude: Mag::Advancing(1.0), eastward_magnitude: Mag::Retreating(2.0) };
    assert_eq!(
        ne.get_opposite(),
        Dir::SouthWest { southward_magnitude: Mag::Retreating(1.0), westward_magnitude: Mag::Advancing(2.0) }
    );
    assert_eq!(ne.get_opposite().get_opposite(), ne);
    let w = Dir::West { westward_magnitude: Mag::Unchanged };
    assert_eq!(w.get_opposite(), Dir::East { eastward_magnitude: Mag::Unchanged });
    for d in Dir::ordinal().iter() {
        assert_eq!(d.get_opposite().get_opposite(), *d);
    }
}

#[test]
fn cardinal_directions_break_down_corners() {
    let sw = Dir::SouthWest { southward_magnitude: Mag::Advancing(3.0), westward_magnitude: Mag::Retreating(1.0) };
    assert_eq!(
        sw.get_cardinal_directions(),
        vec![
            Dir::South { southward_magnitude: Mag::Advancing(3.0) },
            Dir::West { westward_magnitude: Mag::Retreating(1.0) },
        ]
    );
    let e = Dir::East { eastward_magnitude: Mag::Advancing(1.0) };
    assert_eq!(e.get_cardinal_directions(), vec![e]);
    assert_eq!(sw.sides(), vec![Side::South, Side::West]);
    let nw = Dir::NorthWest { northward_magnitude: Mag::Unchanged, westward_magnitude: Mag::Unchanged };
    assert_eq!(nw.sides(), vec![Side::North, Side::West]);
}

#[test]
fn css_grid_location_is_a_compass() {
    assert_eq!(Dir::West { westward_magnitude: Mag::Unchanged }.get_css_grid_location(), (2, 1));
    let expected = [(1, 2), (1, 3), (2, 3), (3, 3), (3, 2), (3, 1), (2, 1), (1, 1)];
    let all = Dir::ordinal();
    for i in 0..8 {
        assert_eq!(all[i].get_css_grid_location(), expected[i]);
        let (r, c) = all[i].get_css_grid_location();
        assert_eq!(all[i].get_opposite().get_css_grid_location(), (4 - r, 4 - c));
    }
}

#[test]
fn ordinal_lists_every_handle_unset() {
    let all = Dir::ordinal();
    assert_eq!(all.len(), 8);
    assert_eq!(all[0], Dir::North { northward_magnitude: Mag::Unchanged });
    assert_eq!(all[7], Dir::NorthWest { northward_magnitude: Mag::Unchanged, westward_magnitude: Mag::Unchanged });
    for d in all.iter() {
        assert!(d.has_all_none_magnitudes());
        assert!(!d.is_multi_side_resize());
        assert!(!d.has_any_retreating());
    }
}

#[test]
fn multi_side_needs_two_moving_sides() {
    let both = Dir::SouthEast { southward_magnitude: Mag::Advancing(1.0), eastward_magnitude: Mag::Retreating(1.0) };
    let one = Dir::SouthEast { southward_magnitude: Mag::Advancing(1.0), eastward_magnitude: Mag::Unchanged };
    let side = Dir::South { southward_magnitude: Mag::Advancing(1.0) };
    assert!(both.is_multi_side_resize());
    assert!(!one.is_multi_side_resize());
    assert!(!side.is_multi_side_resize());
    assert!(!both.has_all_none_magnitudes());
    assert!(!one.has_all_none_magnitudes());
    assert!(both.get_opposite().is_multi_side_resize());
}

#[test]
fn any_retreating_finds_a_retreating_side() {
    let nw = Dir::NorthWest { northward_magnitude: Mag::Advancing(1.0), westward_magnitude: Mag::Retreating(2.0) };
    assert!(nw.has_any_retreating());
    let n = Dir::North { northward_magnitude: Mag::Advancing(1.0) };
    assert!(!n.has_any_retreating());
    assert!(n.get_opposite().has_any_retreating());
}

#[test]
fn magnitudes_from_screenspace_delta() {
    let mut n = Dir::North { northward_magnitude: Mag::Unchanged };
    n.set_magnitudes_from_delta(axis(9.0), axis(-5.0));
    assert_eq!(n, Dir::North { northward_magnitude: Mag::Advancing(5.0) });
    n.set_magnitudes_from_delta(axis(0.0), axis(5.0));
    assert_eq!(n, Dir::North { northward_magnitude: Mag::Retreating(5.0) });

    let mut se = Dir::SouthEast { southward_magnitude: Mag::Unchanged, eastward_magnitude: Mag::Unchanged };
    se.set_magnitudes_from_delta(axis(3.0), axis(-2.0));
    assert_eq!(se, Dir::SouthEast { southward_magnitude: Mag::Retreating(2.0), eastward_magnitude: Mag::Advancing(3.0) });

    let mut sw = Dir::SouthWest { southward_magnitude: Mag::Unchanged, westward_magnitude: Mag::Unchanged };
    sw.set_magnitudes_from_delta(axis(-4.0), axis(6.0));
    assert_eq!(sw, Dir::SouthWest { southward_magnitude: Mag::Advancing(6.0), westward_magnitude: Mag::Advancing(4.0) });

    let mut w = Dir::West { westward_magnitude: Mag::Advancing(1.0) };
    w.set_magnitudes_from_delta(axis(f32::NAN), axis(1.0));
    assert_eq!(w, Dir::West { westward_magnitude: Mag::Unchanged });

    let mut e = Dir::East { eastward_magnitude: Mag::Advancing(1.0) };
    e.set_magnitudes_from_delta(axis(-1.5), axis(0.0));
    assert_eq!(e, Dir::East { eastward_magnitude: Mag::Retreating(1.5) });
}

#[test]
fn zero_delta_unsets_every_handle() {
    for d in Dir::ordinal().iter() {
        let mut d = *d;
        d.set_magnitudes_from_delta(axis(2.0), axis(-3.0));
        assert!(!d.has_all_none_magnitudes());
        d.set_magnitudes_from_delta(AxisDelta::Zero, AxisDelta::Zero);
        assert!(d.has_all_none_magnitudes());
        assert!(!d.is_multi_side_resize());
    }
}

#[test]
fn setting_from_delta_commutes_with_opposite() {
    let (dx, dy) = (axis(-3.0), axis(8.0));
    let base = Dir::NorthWest { northward_magnitude: Mag::Unchanged, westward_magnitude: Mag::Unchanged };
    let mut a = base;
    a.set_magnitudes_from_delta(dx, dy);
    let mut b = base.get_opposite();
    b.set_magnitudes_from_delta(dx, dy);
    assert_eq!(a.get_opposite(), b);
}

#[test]
fn edge_shifts_follow_magnitudes() {
    let nw = Dir::NorthWest { northward_magnitude: Mag::Advancing(4.0), westward_magnitude: Mag::Retreating(1.0) };
    assert_eq!(
        nw.edge_shifts(),
        vec![
            EdgeShift { side: Side::North, amount: 4.0, outward: true },
            EdgeShift { side: Side::West, amount: 1.0, outward: false },
        ]
    );
    let e = Dir::East { eastward_magnitude: Mag::Unchanged };
    assert!(e.edge_shifts().is_empty());
    assert_eq!(
        nw.get_opposite().edge_shifts(),
        vec![
            EdgeShift { side: Side::South, amount: 4.0, outward: false },
            EdgeShift { side: Side::East, amount: 1.0, outward: true },
        ]
    );
}
