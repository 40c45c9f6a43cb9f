//! The values of the two graph operations that the router carries: finding a
//! shortest path and computing the metrics of a graph.
//!
//! The router only passes these values on. A real number in them is held as
//! the bit pattern of its double, which is passed on unchanged.

use vstd::prelude::*;

verus! {

/// A point in the plane. Each coordinate is the bit pattern of a double.
#[derive(Clone, Copy, Debug)]
pub struct Point {
    pub x: u64,
    pub y: u64,
}

/// An edge between two points, each given by its place in the list of points.
#[derive(Clone, Copy, Debug)]
pub struct Edge {
    pub from: usize,
    pub to: usize,
}

/// A shortest path: the places of its points in order, and its length as the
/// bit pattern of a double.
#[derive(Clone, Debug)]
pub struct PathResult {
    pub path: Vec<usize>,
    pub distance: u64,
}

/// What to find a shortest path in, and between which two points.
#[derive(Clone, Debug)]
pub struct ShortestPathParams {
    pub points: Vec<Point>,
    pub edges: Vec<Edge>,
    pub start_idx: usize,
    pub end_idx: usize,
}

/// The metrics of a graph. The two lengths are bit patterns of doubles.
#[derive(Clone, Copy, Debug)]
pub struct GraphMetrics {
    pub node_count: usize,
    pub edge_count: usize,
    pub total_edge_length: u64,
    pub avg_edge_length: u64,
}

/// The graph to compute the metrics of.
#[derive(Clone, Debug)]
pub struct GraphMetricsParams {
    pub points: Vec<Point>,
    pub edges: Vec<Edge>,
}

/// The mathematical value of a [`PathResult`].
pub struct PathResultView {
    pub path: Seq<usize>,
    pub distance: u64,
}

/// The mathematical value of a [`ShortestPathParams`].
pub struct ShortestPathParamsView {
    pub points: Seq<Point>,
    pub edges: Seq<Edge>,
    pub start_idx: usize,
    pub end_idx: usize,
}

/// The mathematical value of a [`GraphMetricsParams`].
pub struct GraphMetricsParamsView {
    pub points: Seq<Point>,
    pub edges: Seq<Edge>,
}

impl View for PathResult {
    type V = PathResultView;

    open spec fn view(&self) -> PathResultView {
        PathResultView { path: self.path@, distance: self.distance }
    }
}

impl View for ShortestPathParams {
    type V = ShortestPathParamsView;

    open spec fn view(&self) -> ShortestPathParamsView {
        ShortestPathParamsView {
            points: self.points@,
            edges: self.edges@,
            start_idx: self.start_idx,
            end_idx: self.end_idx,
        }
    }
}

impl View for GraphMetricsParams {
    type V = GraphMetricsParamsView;

    open spec fn view(&self) -> GraphMetricsParamsView {
        GraphMetricsParamsView { points: self.points@, edges: self.edges@ }
    }
}

} // verus!
