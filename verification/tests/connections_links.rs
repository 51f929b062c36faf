use megalith::connections::CardinalConnections;
use megalith::resize::{ResizeDirection, ResizeMagnitude};

fn sample() -> CardinalConnections<u32> {
    CardinalConnections { northern: vec![1, 2], eastern: vec![3], southern: vec![], western: vec![4, 5] }
}

#[test]
fn default_has_no_links() {
    let c: CardinalConnections<u32> = CardinalConnections::default();
    assert!(c.get_all_vec().is_empty());
}

#[test]
fn side_getters_copy_links() {
    let c = sample();
    assert_eq!(c.northern(), vec![1, 2]);
    assert_eq!(c.eastern(), vec![3]);
    assert_eq!(c.southern(), Vec::<u32>::new());
    assert_eq!(c.western(), vec![4, 5]);
}

#[test]
fn all_links_in_side_order() {
    assert_eq!(sample().get_all_vec(), vec![1, 2, 3, 4, 5]);
}

#[test]
fn handle_links_follow_its_sides() {
    let c = sample();
    let u: ResizeMagnitude<f32> = ResizeMagnitude::Unchanged;
    assert_eq!(c.get_resize_direction_vec(ResizeDirection::North { northward_magnitude: u }), vec![1, 2]);
    assert_eq!(
        c.get_resize_direction_vec(ResizeDirection::NorthEast { northward_magnitude: u, eastward_magnitude: u }),
        vec![1, 2, 3]
    );
    assert_eq!(
        c.get_resize_direction_vec(ResizeDirection::SouthWest { southward_magnitude: u, westward_magnitude: u }),
        vec![4, 5]
    );
    assert_eq!(
        c.get_resize_direction_vec(ResizeDirection::NorthWest { northward_magnitude: u, westward_magnitude: u }),
        vec![1, 2, 4, 5]
    );
    assert_eq!(
        c.get_resize_direction_vec(ResizeDirection::SouthEast { southward_magnitude: u, eastward_magnitude: u }),
        vec![3]
    );
}

#[test]
fn corner_links_are_its_parts_links() {
    let c = sample();
    for d in ResizeDirection::<f32>::ordinal().iter() {
        let mut joined = Vec::new();
        for part in d.get_cardinal_directions() {
            joined.extend(c.get_resize_direction_vec(part));
        }
        assert_eq!(c.get_resize_direction_vec(*d), joined);
        let all = c.get_all_vec();
        for x in c.get_resize_direction_vec(*d) {
            assert!(all.contains(&x));
        }
    }
}
