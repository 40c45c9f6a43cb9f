//! The values of the graph operations on the wire.

use crate::json::Json;
use crate::json::JsonView;
use crate::pathfinder::Edge;
use crate::pathfinder::GraphMetrics;
use crate::pathfinder::GraphMetricsParams;
use crate::pathfinder::GraphMetricsParamsView;
use crate::pathfinder::PathResult;
use crate::pathfinder::PathResultView;
use crate::pathfinder::Point;
use crate::pathfinder::ShortestPathParams;
use crate::pathfinder::ShortestPathParamsView;
use vstd::prelude::*;
use vstd::string::StringExecFns;

verus! {

/// The names of the fields differ from each other.
pub proof fn lemma_field_names_differ()
    ensures
        "x"@ != "y"@,
        "from"@ != "to"@,
        "path"@ != "distance"@,
        "points"@ != "edges"@,
        "points"@ != "start_idx"@,
        "points"@ != "end_idx"@,
        "edges"@ != "start_idx"@,
        "edges"@ != "end_idx"@,
        "start_idx"@ != "end_idx"@,
        "node_count"@ != "edge_count"@,
        "node_count"@ != "total_edge_length"@,
        "node_count"@ != "avg_edge_length"@,
        "edge_count"@ != "total_edge_length"@,
        "edge_count"@ != "avg_edge_length"@,
        "total_edge_length"@ != "avg_edge_length"@,
{
    reveal_strlit("x");
    reveal_strlit("y");
    reveal_strlit("from");
    reveal_strlit("to");
    reveal_strlit("path");
    reveal_strlit("distance");
    reveal_strlit("points");
    reveal_strlit("edges");
    reveal_strlit("start_idx");
    reveal_strlit("end_idx");
    reveal_strlit("node_count");
    reveal_strlit("edge_count");
    reveal_strlit("total_edge_length");
    reveal_strlit("avg_edge_length");
    assert("x"@[0] != "y"@[0]);
    assert("node_count"@[0] != "edge_count"@[0]);
    assert("from"@.len() != "to"@.len());
    assert("path"@.len() != "distance"@.len());
    assert("points"@.len() == 6);
    assert("edges"@.len() == 5);
    assert("start_idx"@.len() == 9);
    assert("end_idx"@.len() == 7);
    assert("node_count"@.len() == 10);
    assert("edge_count"@.len() == 10);
    assert("total_edge_length"@.len() == 17);
    assert("avg_edge_length"@.len() == 15);
}

/// An object with two members.
fn object_of_two(first: &str, a: Json, second: &str, b: Json) -> (json: Json)
    ensures
        json@ == JsonView::Object(seq![(first@, a@), (second@, b@)]),
{
    let mut members: Vec<(String, Json)> = Vec::new();
    members.push((String::from_str(first), a));
    members.push((String::from_str(second), b));
    proof {
        Json::lemma_view_of_object(members);
    }
    let json = Json::Object(members);
    assert(json@->Object_0 =~= seq![(first@, a@), (second@, b@)]);
    json
}

/// An object with four members.
fn object_of_four(
    first: &str,
    a: Json,
    second: &str,
    b: Json,
    third: &str,
    c: Json,
    fourth: &str,
    d: Json,
) -> (json: Json)
    ensures
        json@ == JsonView::Object(
            seq![(first@, a@), (second@, b@), (third@, c@), (fourth@, d@)],
        ),
{
    let mut members: Vec<(String, Json)> = Vec::new();
    members.push((String::from_str(first), a));
    members.push((String::from_str(second), b));
    members.push((String::from_str(third), c));
    members.push((String::from_str(fourth), d));
    proof {
        Json::lemma_view_of_object(members);
    }
    let json = Json::Object(members);
    assert(json@->Object_0 =~= seq![(first@, a@), (second@, b@), (third@, c@), (fourth@, d@)]);
    json
}

impl JsonView {
    /// The fields of an object with two members of different names.
    pub proof fn lemma_fields_of_two(first: Seq<char>, a: JsonView, second: Seq<char>, b: JsonView)
        requires
            first != second,
        ensures
            JsonView::Object(seq![(first, a), (second, b)]).field(first) == Some(a),
            JsonView::Object(seq![(first, a), (second, b)]).field(second) == Some(b),
    {
        let members = seq![(first, a), (second, b)];
        Self::lemma_member_at(members, first, 0);
        Self::lemma_member_at(members, second, 1);
    }

    /// The fields of an object with four members of different names.
    pub proof fn lemma_fields_of_four(
        first: Seq<char>,
        a: JsonView,
        second: Seq<char>,
        b: JsonView,
        third: Seq<char>,
        c: JsonView,
        fourth: Seq<char>,
        d: JsonView,
    )
        requires
            first != second,
            first != third,
            first != fourth,
            second != third,
            second != fourth,
            third != fourth,
        ensures
            ({
                let object = JsonView::Object(
                    seq![(first, a), (second, b), (third, c), (fourth, d)],
                );
                &&& object.field(first) == Some(a)
                &&& object.field(second) == Some(b)
                &&& object.field(third) == Some(c)
                &&& object.field(fourth) == Some(d)
            }),
    {
        let members = seq![(first, a), (second, b), (third, c), (fourth, d)];
        Self::lemma_member_at(members, first, 0);
        Self::lemma_member_at(members, second, 1);
        Self::lemma_member_at(members, third, 2);
        Self::lemma_member_at(members, fourth, 3);
    }

    /// A list of indices, item by item.
    pub open spec fn of_indices(indices: Seq<usize>) -> JsonView {
        JsonView::Array(Seq::new(indices.len(), |i: int| JsonView::of_index(indices[i])))
    }

    /// The list of indices that an array of numbers stands for.
    pub open spec fn as_indices(self) -> Option<Seq<usize>> {
        match self {
            JsonView::Array(items) => if forall|i: int|
                0 <= i < items.len() ==> (#[trigger] items[i]).as_index() is Some {
                Some(Seq::new(items.len(), |i: int| items[i].as_index().unwrap()))
            } else {
                None
            },
            _ => None,
        }
    }

    /// A list of indices that was encoded is decoded as itself.
    pub proof fn lemma_indices_come_back(indices: Seq<usize>)
        ensures
            Self::of_indices(indices).as_indices() == Some(indices),
    {
        let items = Self::of_indices(indices)->Array_0;
        assert forall|i: int| 0 <= i < items.len() implies (#[trigger] items[i]).as_index()
            == Some(indices[i]) by {}
        assert(Self::of_indices(indices).as_indices().unwrap() =~= indices);
    }
}

impl Json {
    /// A list of indices, item by item.
    pub fn of_indices(indices: &Vec<usize>) -> (json: Json)
        ensures
            json@ == JsonView::of_indices(indices@),
    {
        let mut items: Vec<Json> = Vec::new();
        let mut i: usize = 0;
        while i < indices.len()
            invariant
                i <= indices.len(),
                items@.len() == i,
                forall|k: int| 0 <= k < i ==> (#[trigger] items@[k])@ == JsonView::of_index(indices@[k]),
            decreases indices.len() - i,
        {
            items.push(Json::of_index(indices[i]));
            i += 1;
        }
        proof {
            Json::lemma_view_of_array(items);
        }
        let json = Json::Array(items);
        assert(json@->Array_0 =~= JsonView::of_indices(indices@)->Array_0);
        json
    }

    /// The list of indices that an array of numbers stands for.
    pub fn as_indices(&self) -> (indices: Option<Vec<usize>>)
        ensures
            match indices {
                Some(indices) => self@.as_indices() == Some(indices@),
                None => self@.as_indices() is None,
            },
    {
        match self {
            Json::Array(items) => {
                proof {
                    Json::lemma_view_of_array(*items);
                }
                let ghost seen = self@->Array_0;
                let mut indices: Vec<usize> = Vec::new();
                let mut i: usize = 0;
                while i < items.len()
                    invariant
                        i <= items.len(),
                        indices@.len() == i,
                        self@ == JsonView::Array(seen),
                        seen.len() == items.len(),
                        forall|k: int| 0 <= k < items.len() ==> #[trigger] seen[k] == items[k]@,
                        forall|k: int|
                            0 <= k < i ==> (#[trigger] seen[k]).as_index() == Some(indices@[k]),
                    decreases items.len() - i,
                {
                    match items[i].as_index() {
                        Some(index) => {
                            indices.push(index);
                        },
                        None => {
                            assert(seen[i as int].as_index() is None);
                            return None;
                        },
                    }
                    i += 1;
                }
                assert(self@.as_indices().unwrap() =~= indices@);
                Some(indices)
            },
            _ => None,
        }
    }
}

impl Point {
    /// A point on the wire: an object with the two coordinates.
    pub open spec fn encoded(self) -> JsonView {
        JsonView::Object(
            seq![("x"@, JsonView::of_float_bits(self.x)), ("y"@, JsonView::of_float_bits(self.y))],
        )
    }

    /// The point that a document stands for, if it stands for one.
    pub open spec fn decoded(json: JsonView) -> Option<Point> {
        match (json.field("x"@), json.field("y"@)) {
            (Some(x), Some(y)) => match (x.as_float_bits(), y.as_float_bits()) {
                (Some(x), Some(y)) => Some(Point { x, y }),
                _ => None,
            },
            _ => None,
        }
    }

    /// A point that was encoded is decoded as itself.
    pub proof fn lemma_comes_back(self)
        ensures
            Self::decoded(self.encoded()) == Some(self),
    {
        lemma_field_names_differ();
        JsonView::lemma_fields_of_two(
            "x"@,
            JsonView::of_float_bits(self.x),
            "y"@,
            JsonView::of_float_bits(self.y),
        );
    }

    /// Encodes the point.
    pub fn to_json(&self) -> (json: Json)
        ensures
            json@ == self.encoded(),
    {
        object_of_two("x", Json::of_float_bits(self.x), "y", Json::of_float_bits(self.y))
    }

    /// Decodes a point.
    pub fn from_json(json: &Json) -> (point: Option<Point>)
        ensures
            point == Self::decoded(json@),
    {
        let x = match json.field("x") {
            Some(x) => x.as_float_bits(),
            None => None,
        };
        let y = match json.field("y") {
            Some(y) => y.as_float_bits(),
            None => None,
        };
        match (x, y) {
            (Some(x), Some(y)) => Some(Point { x, y }),
            _ => None,
        }
    }

    /// A list of points on the wire.
    pub open spec fn encoded_list(points: Seq<Point>) -> JsonView {
        JsonView::Array(Seq::new(points.len(), |i: int| points[i].encoded()))
    }

    /// The list of points that a document stands for.
    pub open spec fn decoded_list(json: JsonView) -> Option<Seq<Point>> {
        match json {
            JsonView::Array(items) => if forall|i: int|
                0 <= i < items.len() ==> Self::decoded(#[trigger] items[i]) is Some {
                Some(Seq::new(items.len(), |i: int| Self::decoded(items[i]).unwrap()))
            } else {
                None
            },
            _ => None,
        }
    }

    /// A list of points that was encoded is decoded as itself.
    pub proof fn lemma_list_comes_back(points: Seq<Point>)
        ensures
            Self::decoded_list(Self::encoded_list(points)) == Some(points),
    {
        let items = Self::encoded_list(points)->Array_0;
        assert forall|i: int| 0 <= i < items.len() implies Self::decoded(#[trigger] items[i])
            == Some(points[i]) by {
            points[i].lemma_comes_back();
        }
        assert(Self::decoded_list(Self::encoded_list(points)).unwrap() =~= points);
    }

    /// Encodes a list of points.
    pub fn list_to_json(points: &Vec<Point>) -> (json: Json)
        ensures
            json@ == Self::encoded_list(points@),
    {
        let mut items: Vec<Json> = Vec::new();
        let mut i: usize = 0;
        while i < points.len()
            invariant
                i <= points.len(),
                items@.len() == i,
                forall|k: int| 0 <= k < i ==> (#[trigger] items@[k])@ == points@[k].encoded(),
            decreases points.len() - i,
        {
            items.push(points[i].to_json());
            i += 1;
        }
        proof {
            Json::lemma_view_of_array(items);
        }
        let json = Json::Array(items);
        assert(json@->Array_0 =~= Self::encoded_list(points@)->Array_0);
        json
    }

    /// Decodes a list of points.
    pub fn list_from_json(json: &Json) -> (points: Option<Vec<Point>>)
        ensures
            match points {
                Some(points) => Self::decoded_list(json@) == Some(points@),
                None => Self::decoded_list(json@) is None,
            },
    {
        match json {
            Json::Array(items) => {
                proof {
                    Json::lemma_view_of_array(*items);
                }
                let ghost seen = json@->Array_0;
                let mut points: Vec<Point> = Vec::new();
                let mut i: usize = 0;
                while i < items.len()
                    invariant
                        i <= items.len(),
                        points@.len() == i,
                        json@ == JsonView::Array(seen),
                        seen.len() == items.len(),
                        forall|k: int| 0 <= k < items.len() ==> #[trigger] seen[k] == items[k]@,
                        forall|k: int|
                            0 <= k < i ==> Self::decoded(#[trigger] seen[k]) == Some(points@[k]),
                    decreases items.len() - i,
                {
                    match Point::from_json(&items[i]) {
                        Some(point) => {
                            points.push(point);
                        },
                        None => {
                            assert(Self::decoded(seen[i as int]) is None);
                            return None;
                        },
                    }
                    i += 1;
                }
                assert(Self::decoded_list(json@).unwrap() =~= points@);
                Some(points)
            },
            _ => None,
        }
    }
}

impl Edge {
    /// An edge on the wire: an object with the two ends.
    pub open spec fn encoded(self) -> JsonView {
        JsonView::Object(
            seq![("from"@, JsonView::of_index(self.from)), ("to"@, JsonView::of_index(self.to))],
        )
    }

    /// The edge that a document stands for, if it stands for one.
    pub open spec fn decoded(json: JsonView) -> Option<Edge> {
        match (json.field("from"@), json.field("to"@)) {
            (Some(from), Some(to)) => match (from.as_index(), to.as_index()) {
                (Some(from), Some(to)) => Some(Edge { from, to }),
                _ => None,
            },
            _ => None,
        }
    }

    /// An edge that was encoded is decoded as itself.
    pub proof fn lemma_comes_back(self)
        ensures
            Self::decoded(self.encoded()) == Some(self),
    {
        lemma_field_names_differ();
        JsonView::lemma_fields_of_two(
            "from"@,
            JsonView::of_index(self.from),
            "to"@,
            JsonView::of_index(self.to),
        );
    }

    /// Encodes the edge.
    pub fn to_json(&self) -> (json: Json)
        ensures
            json@ == self.encoded(),
    {
        object_of_two("from", Json::of_index(self.from), "to", Json::of_index(self.to))
    }

    /// Decodes an edge.
    pub fn from_json(json: &Json) -> (edge: Option<Edge>)
        ensures
            edge == Self::decoded(json@),
    {
        let from = match json.field("from") {
            Some(from) => from.as_index(),
            None => None,
        };
        let to = match json.field("to") {
            Some(to) => to.as_index(),
            None => None,
        };
        match (from, to) {
            (Some(from), Some(to)) => Some(Edge { from, to }),
            _ => None,
        }
    }

    /// A list of edges on the wire.
    pub open spec fn encoded_list(edges: Seq<Edge>) -> JsonView {
        JsonView::Array(Seq::new(edges.len(), |i: int| edges[i].encoded()))
    }

    /// The list of edges that a document stands for.
    pub open spec fn decoded_list(json: JsonView) -> Option<Seq<Edge>> {
        match json {
            JsonView::Array(items) => if forall|i: int|
                0 <= i < items.len() ==> Self::decoded(#[trigger] items[i]) is Some {
                Some(Seq::new(items.len(), |i: int| Self::decoded(items[i]).unwrap()))
            } else {
                None
            },
            _ => None,
        }
    }

    /// A list of edges that was encoded is decoded as itself.
    pub proof fn lemma_list_comes_back(edges: Seq<Edge>)
        ensures
            Self::decoded_list(Self::encoded_list(edges)) == Some(edges),
    {
        let items = Self::encoded_list(edges)->Array_0;
        assert forall|i: int| 0 <= i < items.len() implies Self::decoded(#[trigger] items[i])
            == Some(edges[i]) by {
            edges[i].lemma_comes_back();
        }
        assert(Self::decoded_list(Self::encoded_list(edges)).unwrap() =~= edges);
    }

    /// Encodes a list of edges.
    pub fn list_to_json(edges: &Vec<Edge>) -> (json: Json)
        ensures
            json@ == Self::encoded_list(edges@),
    {
        let mut items: Vec<Json> = Vec::new();
        let mut i: usize = 0;
        while i < edges.len()
            invariant
                i <= edges.len(),
                items@.len() == i,
                forall|k: int| 0 <= k < i ==> (#[trigger] items@[k])@ == edges@[k].encoded(),
            decreases edges.len() - i,
        {
            items.push(edges[i].to_json());
            i += 1;
        }
        proof {
            Json::lemma_view_of_array(items);
        }
        let json = Json::Array(items);
        assert(json@->Array_0 =~= Self::encoded_list(edges@)->Array_0);
        json
    }

    /// Decodes a list of edges.
    pub fn list_from_json(json: &Json) -> (edges: Option<Vec<Edge>>)
        ensures
            match edges {
                Some(edges) => Self::decoded_list(json@) == Some(edges@),
                None => Self::decoded_list(json@) is None,
            },
    {
        match json {
            Json::Array(items) => {
                proof {
                    Json::lemma_view_of_array(*items);
                }
                let ghost seen = json@->Array_0;
                let mut edges: Vec<Edge> = Vec::new();
                let mut i: usize = 0;
                while i < items.len()
                    invariant
                        i <= items.len(),
                        edges@.len() == i,
                        json@ == JsonView::Array(seen),
                        seen.len() == items.len(),
                        forall|k: int| 0 <= k < items.len() ==> #[trigger] seen[k] == items[k]@,
                        forall|k: int|
                            0 <= k < i ==> Self::decoded(#[trigger] seen[k]) == Some(edges@[k]),
                    decreases items.len() - i,
                {
                    match Edge::from_json(&items[i]) {
                        Some(edge) => {
                            edges.push(edge);
                        },
                        None => {
                            assert(Self::decoded(seen[i as int]) is None);
                            return None;
                        },
                    }
                    i += 1;
                }
                assert(Self::decoded_list(json@).unwrap() =~= edges@);
                Some(edges)
            },
            _ => None,
        }
    }
}

impl PathResultView {
    /// A path on the wire: an object with the places of its points and its
    /// length.
    pub open spec fn encoded(self) -> JsonView {
        JsonView::Object(
            seq![
                ("path"@, JsonView::of_indices(self.path)),
                ("distance"@, JsonView::of_float_bits(self.distance)),
            ],
        )
    }

    /// The path that a document stands for, if it stands for one.
    pub open spec fn decoded(json: JsonView) -> Option<PathResultView> {
        match (json.field("path"@), json.field("distance"@)) {
            (Some(path), Some(distance)) => match (path.as_indices(), distance.as_float_bits()) {
                (Some(path), Some(distance)) => Some(PathResultView { path, distance }),
                _ => None,
            },
            _ => None,
        }
    }

    /// A path that was encoded is decoded as itself.
    pub proof fn lemma_comes_back(self)
        ensures
            Self::decoded(self.encoded()) == Some(self),
    {
        lemma_field_names_differ();
        JsonView::lemma_fields_of_two(
            "path"@,
            JsonView::of_indices(self.path),
            "distance"@,
            JsonView::of_float_bits(self.distance),
        );
        JsonView::lemma_indices_come_back(self.path);
    }
}

impl PathResult {
    /// Encodes the path.
    pub fn to_json(&self) -> (json: Json)
        ensures
            json@ == self@.encoded(),
    {
        object_of_two(
            "path",
            Json::of_indices(&self.path),
            "distance",
            Json::of_float_bits(self.distance),
        )
    }

    /// Decodes a path.
    pub fn from_json(json: &Json) -> (result: Option<PathResult>)
        ensures
            match result {
                Some(result) => PathResultView::decoded(json@) == Some(result@),
                None => PathResultView::decoded(json@) is None,
            },
    {
        let path = match json.field("path") {
            Some(path) => path.as_indices(),
            None => None,
        };
        let distance = match json.field("distance") {
            Some(distance) => distance.as_float_bits(),
            None => None,
        };
        match (path, distance) {
            (Some(path), Some(distance)) => Some(PathResult { path, distance }),
            _ => None,
        }
    }
}

impl ShortestPathParamsView {
    /// The parameters on the wire: an object with the points, the edges and
    /// the two ends of the path.
    pub open spec fn encoded(self) -> JsonView {
        JsonView::Object(
            seq![
                ("points"@, Point::encoded_list(self.points)),
                ("edges"@, Edge::encoded_list(self.edges)),
                ("start_idx"@, JsonView::of_index(self.start_idx)),
                ("end_idx"@, JsonView::of_index(self.end_idx)),
            ],
        )
    }

    /// The parameters that a document stands for, if it stands for some.
    pub open spec fn decoded(json: JsonView) -> Option<ShortestPathParamsView> {
        match (
            json.field("points"@),
            json.field("edges"@),
            json.field("start_idx"@),
            json.field("end_idx"@),
        ) {
            (Some(points), Some(edges), Some(start), Some(end)) => match (
                Point::decoded_list(points),
                Edge::decoded_list(edges),
                start.as_index(),
                end.as_index(),
            ) {
                (Some(points), Some(edges), Some(start_idx), Some(end_idx)) => Some(
                    ShortestPathParamsView { points, edges, start_idx, end_idx },
                ),
                _ => None,
            },
            _ => None,
        }
    }

    /// Parameters that were encoded are decoded as themselves.
    pub proof fn lemma_comes_back(self)
        ensures
            Self::decoded(self.encoded()) == Some(self),
    {
        lemma_field_names_differ();
        JsonView::lemma_fields_of_four(
            "points"@,
            Point::encoded_list(self.points),
            "edges"@,
            Edge::encoded_list(self.edges),
            "start_idx"@,
            JsonView::of_index(self.start_idx),
            "end_idx"@,
            JsonView::of_index(self.end_idx),
        );
        Point::lemma_list_comes_back(self.points);
        Edge::lemma_list_comes_back(self.edges);
    }
}

impl ShortestPathParams {
    /// Encodes the parameters.
    pub fn to_json(&self) -> (json: Json)
        ensures
            json@ == self@.encoded(),
    {
        object_of_four(
            "points",
            Point::list_to_json(&self.points),
            "edges",
            Edge::list_to_json(&self.edges),
            "start_idx",
            Json::of_index(self.start_idx),
            "end_idx",
            Json::of_index(self.end_idx),
        )
    }

    /// Decodes the parameters.
    pub fn from_json(json: &Json) -> (params: Option<ShortestPathParams>)
        ensures
            match params {
                Some(params) => ShortestPathParamsView::decoded(json@) == Some(params@),
                None => ShortestPathParamsView::decoded(json@) is None,
            },
    {
        let points = match json.field("points") {
            Some(points) => Point::list_from_json(points),
            None => None,
        };
        let edges = match json.field("edges") {
            Some(edges) => Edge::list_from_json(edges),
            None => None,
        };
        let start_idx = match json.field("start_idx") {
            Some(start) => start.as_index(),
            None => None,
        };
        let end_idx = match json.field("end_idx") {
            Some(end) => end.as_index(),
            None => None,
        };
        match (points, edges, start_idx, end_idx) {
            (Some(points), Some(edges), Some(start_idx), Some(end_idx)) => Some(
                ShortestPathParams { points, edges, start_idx, end_idx },
            ),
            _ => None,
        }
    }
}

impl GraphMetricsParamsView {
    /// The parameters on the wire: an object with the points and the edges.
    pub open spec fn encoded(self) -> JsonView {
        JsonView::Object(
            seq![
                ("points"@, Point::encoded_list(self.points)),
                ("edges"@, Edge::encoded_list(self.edges)),
            ],
        )
    }

    /// The parameters that a document stands for, if it stands for some.
    pub open spec fn decoded(json: JsonView) -> Option<GraphMetricsParamsView> {
        match (json.field("points"@), json.field("edges"@)) {
            (Some(points), Some(edges)) => match (
                Point::decoded_list(points),
                Edge::decoded_list(edges),
            ) {
                (Some(points), Some(edges)) => Some(GraphMetricsParamsView { points, edges }),
                _ => None,
            },
            _ => None,
        }
    }

    /// Parameters that were encoded are decoded as themselves.
    pub proof fn lemma_comes_back(self)
        ensures
            Self::decoded(self.encoded()) == Some(self),
    {
        lemma_field_names_differ();
        JsonView::lemma_fields_of_two(
            "points"@,
            Point::encoded_list(self.points),
            "edges"@,
            Edge::encoded_list(self.edges),
        );
        Point::lemma_list_comes_back(self.points);
        Edge::lemma_list_comes_back(self.edges);
    }
}

impl GraphMetricsParams {
    /// Encodes the parameters.
    pub fn to_json(&self) -> (json: Json)
        ensures
            json@ == self@.encoded(),
    {
        object_of_two(
            "points",
            Point::list_to_json(&self.points),
            "edges",
            Edge::list_to_json(&self.edges),
        )
    }

    /// Decodes the parameters.
    pub fn from_json(json: &Json) -> (params: Option<GraphMetricsParams>)
        ensures
            match params {
                Some(params) => GraphMetricsParamsView::decoded(json@) == Some(params@),
                None => GraphMetricsParamsView::decoded(json@) is None,
            },
    {
        let points = match json.field("points") {
            Some(points) => Point::list_from_json(points),
            None => None,
        };
        let edges = match json.field("edges") {
            Some(edges) => Edge::list_from_json(edges),
            None => None,
        };
        match (points, edges) {
            (Some(points), Some(edges)) => Some(GraphMetricsParams { points, edges }),
            _ => None,
        }
    }
}

impl GraphMetrics {
    /// The metrics on the wire: an object with the two counts and the two
    /// lengths.
    pub open spec fn encoded(self) -> JsonView {
        JsonView::Object(
            seq![
                ("node_count"@, JsonView::of_index(self.node_count)),
                ("edge_count"@, JsonView::of_index(self.edge_count)),
                ("total_edge_length"@, JsonView::of_float_bits(self.total_edge_length)),
                ("avg_edge_length"@, JsonView::of_float_bits(self.avg_edge_length)),
            ],
        )
    }

    /// The metrics that a document stands for, if it stands for some.
    pub open spec fn decoded(json: JsonView) -> Option<GraphMetrics> {
        match (
            json.field("node_count"@),
            json.field("edge_count"@),
            json.field("total_edge_length"@),
            json.field("avg_edge_length"@),
        ) {
            (Some(nodes), Some(edges), Some(total), Some(avg)) => match (
                nodes.as_index(),
                edges.as_index(),
                total.as_float_bits(),
                avg.as_float_bits(),
            ) {
                (
                    Some(node_count),
                    Some(edge_count),
                    Some(total_edge_length),
                    Some(avg_edge_length),
                ) => Some(
                    GraphMetrics { node_count, edge_count, total_edge_length, avg_edge_length },
                ),
                _ => None,
            },
            _ => None,
        }
    }

    /// Metrics that were encoded are decoded as themselves.
    pub proof fn lemma_comes_back(self)
        ensures
            Self::decoded(self.encoded()) == Some(self),
    {
        lemma_field_names_differ();
        JsonView::lemma_fields_of_four(
            "node_count"@,
            JsonView::of_index(self.node_count),
            "edge_count"@,
            JsonView::of_index(self.edge_count),
            "total_edge_length"@,
            JsonView::of_float_bits(self.total_edge_length),
            "avg_edge_length"@,
            JsonView::of_float_bits(self.avg_edge_length),
        );
    }

    /// Encodes the metrics.
    pub fn to_json(&self) -> (json: Json)
        ensures
            json@ == self.encoded(),
    {
        object_of_four(
            "node_count",
            Json::of_index(self.node_count),
            "edge_count",
            Json::of_index(self.edge_count),
            "total_edge_length",
            Json::of_float_bits(self.total_edge_length),
            "avg_edge_length",
            Json::of_float_bits(self.avg_edge_length),
        )
    }

    /// Decodes the metrics.
    pub fn from_json(json: &Json) -> (metrics: Option<GraphMetrics>)
        ensures
            metrics == Self::decoded(json@),
    {
        let node_count = match json.field("node_count") {
            Some(nodes) => nodes.as_index(),
            None => None,
        };
        let edge_count = match json.field("edge_count") {
            Some(edges) => edges.as_index(),
            None => None,
        };
        let total_edge_length = match json.field("total_edge_length") {
            Some(total) => total.as_float_bits(),
            None => None,
        };
        let avg_edge_length = match json.field("avg_edge_length") {
            Some(avg) => avg.as_float_bits(),
            None => None,
        };
        match (node_count, edge_count, total_edge_length, avg_edge_length) {
            (
                Some(node_count),
                Some(edge_count),
                Some(total_edge_length),
                Some(avg_edge_length),
            ) => Some(GraphMetrics { node_count, edge_count, total_edge_length, avg_edge_length }),
            _ => None,
        }
    }
}

} // verus!
