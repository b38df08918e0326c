//! The outline of a ship's hull: an ordered list of vertices, cut into
//! sub-paths that are drawn apart from each other.
//!
//! The outline grows by whole segments and in no other way. A new segment is
//! a sub-path of its own at the end of the list: it is never joined to a
//! vertex that is already there, also where an end point coincides with one.

use vstd::prelude::*;
use crate::grid::Point;

verus! {

/// A vertex of an outline. `starts_path` tells that no line leads to it from
/// the vertex before: the pen is lifted and set down here.
#[derive(Clone, Copy, Debug, PartialEq, Eq, Structural)]
pub struct Vertex {
    pub point: Point,
    pub starts_path: bool,
}

/// An open path of two vertices. The two may coincide.
#[derive(Clone, Copy, Debug, PartialEq, Eq, Structural)]
pub struct Segment {
    pub start: Point,
    pub end: Point,
}

impl Segment {
    /// The segment as a sub-path of its own: its start with the pen set down,
    /// then its end.
    pub open spec fn vertices(self) -> Seq<Vertex> {
        seq![
            Vertex { point: self.start, starts_path: true },
            Vertex { point: self.end, starts_path: false },
        ]
    }
}

/// The vertices that a frame's commit adds to an outline: those of the
/// segment, or none.
pub open spec fn committed_vertices(commit: Option<Segment>) -> Seq<Vertex> {
    match commit {
        Some(segment) => segment.vertices(),
        None => Seq::empty(),
    }
}

/// The points of a list of vertices, in order.
pub open spec fn points_of(vertices: Seq<Vertex>) -> Seq<Point> {
    Seq::new(vertices.len(), |i: int| vertices[i].point)
}

/// Half the side of the square hull that a ship is spawned with.
pub const HULL_HALF_SIDE: i64 = 5;

/// The hull that a ship is spawned with: a square around the origin, drawn
/// as one sub-path that ends where it began.
pub open spec fn spawn_hull() -> Seq<Vertex> {
    seq![
        Vertex { point: Point { x: -5i64, y: -5i64 }, starts_path: true },
        Vertex { point: Point { x: -5i64, y: 5 }, starts_path: false },
        Vertex { point: Point { x: 5, y: 5 }, starts_path: false },
        Vertex { point: Point { x: 5, y: -5i64 }, starts_path: false },
        Vertex { point: Point { x: -5i64, y: -5i64 }, starts_path: false },
    ]
}

/// The walls of a ship: the outline of its hull. The view is the list of
/// its vertices.
#[derive(Debug)]
pub struct ShipWalls {
    vertices: Vec<Vertex>,
}

impl View for ShipWalls {
    type V = Seq<Vertex>;

    closed spec fn view(&self) -> Seq<Vertex> {
        self.vertices@
    }
}

impl ShipWalls {
    /// A non-empty outline begins by setting the pen down. Walls are made
    /// so and stay so.
    pub open spec fn wf(&self) -> bool {
        self@.len() > 0 ==> self@[0].starts_path
    }

    /// Walls with no vertex.
    pub fn new() -> (walls: ShipWalls)
        ensures
            walls@ == Seq::<Vertex>::empty(),
            walls.wf(),
    {
        ShipWalls { vertices: Vec::new() }
    }

    /// The walls of a newly spawned ship.
    pub fn hull() -> (walls: ShipWalls)
        ensures
            walls@ == spawn_hull(),
            walls.wf(),
    {
        let h: i64 = HULL_HALF_SIDE;
        let mut vertices: Vec<Vertex> = Vec::new();
        vertices.push(Vertex { point: Point { x: -h, y: -h }, starts_path: true });
        vertices.push(Vertex { point: Point { x: -h, y: h }, starts_path: false });
        vertices.push(Vertex { point: Point { x: h, y: h }, starts_path: false });
        vertices.push(Vertex { point: Point { x: h, y: -h }, starts_path: false });
        vertices.push(Vertex { point: Point { x: -h, y: -h }, starts_path: false });
        ShipWalls { vertices }
    }

    /// Merges a finished segment into the outline: its two vertices are
    /// appended as a sub-path of their own, and every vertex that was there
    /// stays where it was. This is the only way in which walls change.
    pub fn append_segment(&mut self, segment: Segment)
        ensures
            final(self)@ == old(self)@ + segment.vertices(),
            old(self).wf() ==> final(self).wf(),
    {
        self.vertices.push(Vertex { point: segment.start, starts_path: true });
        self.vertices.push(Vertex { point: segment.end, starts_path: false });
    }

    /// The number of vertices.
    pub fn len(&self) -> (n: usize)
        ensures
            n == self@.len(),
    {
        self.vertices.len()
    }

    /// The vertex at `index`, if there is one.
    pub fn vertex(&self, index: usize) -> (vertex: Option<Vertex>)
        ensures
            vertex == (if index < self@.len() {
                Some(self@[index as int])
            } else {
                None
            }),
    {
        if index < self.vertices.len() {
            Some(self.vertices[index])
        } else {
            None
        }
    }

    /// The vertices, in order.
    pub fn vertices(&self) -> (list: &Vec<Vertex>)
        ensures
            list@ == self@,
    {
        &self.vertices
    }

    /// The points of the vertices, in order.
    pub fn points(&self) -> (list: Vec<Point>)
        ensures
            list@ == points_of(self@),
    {
        let mut list: Vec<Point> = Vec::new();
        let mut i: usize = 0;
        while i < self.vertices.len()
            invariant
                i <= self.vertices@.len(),
                list@ == points_of(self.vertices@.take(i as int)),
            decreases self.vertices@.len() - i,
        {
            list.push(self.vertices[i].point);
            i += 1;
        }
        list
    }
}

} // verus!
