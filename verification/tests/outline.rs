use kataster::grid::Point;
use kataster::outline::{Segment, ShipWalls, Vertex};

fn pt(x: i64, y: i64) -> Point {
    Point { x, y }
}

#[test]
fn new_walls_are_empty() {
    let walls = ShipWalls::new();
    assert_eq!(walls.len(), 0);
    assert_eq!(walls.vertex(0), None);
    assert!(walls.points().is_empty());
}

#[test]
fn hull_is_a_square_that_ends_where_it_began() {
    let walls = ShipWalls::hull();
    assert_eq!(walls.points(), vec![pt(-5, -5), pt(-5, 5), pt(5, 5), pt(5, -5), pt(-5, -5)]);
    let pens: Vec<bool> = walls.vertices().iter().map(|v| v.starts_path).collect();
    assert_eq!(pens, vec![true, false, false, false, false]);
}

#[test]
fn append_segment_adds_a_sub_path_of_two() {
    let mut walls = ShipWalls::hull();
    walls.append_segment(Segment { start: pt(100, 60), end: pt(200, 20) });
    assert_eq!(walls.len(), 7);
    assert_eq!(walls.vertex(5), Some(Vertex { point: pt(100, 60), starts_path: true }));
    assert_eq!(walls.vertex(6), Some(Vertex { point: pt(200, 20), starts_path: false }));
    assert_eq!(walls.vertex(7), None);
    assert_eq!(&walls.points()[..5], &ShipWalls::hull().points()[..]);
}

#[test]
fn append_segment_to_empty_walls() {
    let mut walls = ShipWalls::new();
    walls.append_segment(Segment { start: pt(0, 0), end: pt(20, 0) });
    assert_eq!(
        walls.vertices(),
        &vec![
            Vertex { point: pt(0, 0), starts_path: true },
            Vertex { point: pt(20, 0), starts_path: false },
        ]
    );
}

#[test]
fn append_segment_does_not_join_or_drop_equal_points() {
    let mut walls = ShipWalls::hull();
    // Starts where the hull ends, and is given twice.
    let wall = Segment { start: pt(-5, -5), end: pt(20, 0) };
    walls.append_segment(wall);
    walls.append_segment(wall);
    assert_eq!(walls.len(), 9);
    assert_eq!(walls.vertex(5), Some(Vertex { point: pt(-5, -5), starts_path: true }));
    assert_eq!(walls.vertex(7), Some(Vertex { point: pt(-5, -5), starts_path: true }));
    assert_eq!(walls.vertex(8), Some(Vertex { point: pt(20, 0), starts_path: false }));
}

#[test]
fn append_segment_keeps_a_segment_without_length() {
    let mut walls = ShipWalls::new();
    walls.append_segment(Segment { start: pt(40, 40), end: pt(40, 40) });
    assert_eq!(walls.points(), vec![pt(40, 40), pt(40, 40)]);
}
