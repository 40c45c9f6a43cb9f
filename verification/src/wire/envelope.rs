//! Requests and replies on the wire.

use crate::json::Json;
use crate::json::JsonView;
use crate::pathfinder::GraphMetrics;
use crate::pathfinder::GraphMetricsParams;
use crate::pathfinder::GraphMetricsParamsView;
use crate::pathfinder::PathResult;
use crate::pathfinder::PathResultView;
use crate::pathfinder::ShortestPathParams;
use crate::pathfinder::ShortestPathParamsView;
use crate::router::router_gen::CallGen;
use crate::router::router_gen::CallGenView;
use crate::router::router_gen::ResponseNextGen;
use crate::router::router_gen::ResponseNextGenView;
use crate::router::Request;
use crate::router::RequestEnum;
use crate::router::RequestView;
use crate::router::ResponseEnum;
use crate::router::ResponseEnumView;
use crate::router::WireResponse;
use crate::router::WireResponseView;
use crate::types::DevString;
use crate::types::DevStringView;
use vstd::prelude::*;
use vstd::string::StringExecFns;

verus! {

/// The tags differ from each other.
pub proof fn lemma_tags_differ()
    ensures
        "find_shortest_path"@ != "compute_graph_metrics"@,
        "Call"@ != "Abort"@,
        "N"@ != "Error"@,
        "N"@ != "Complete"@,
        "N"@ != "Aborted"@,
        "Error"@ != "Complete"@,
        "Error"@ != "Aborted"@,
        "Complete"@ != "Aborted"@,
{
    reveal_strlit("find_shortest_path");
    reveal_strlit("compute_graph_metrics");
    reveal_strlit("Call");
    reveal_strlit("Abort");
    reveal_strlit("N");
    reveal_strlit("Error");
    reveal_strlit("Complete");
    reveal_strlit("Aborted");
    assert("find_shortest_path"@.len() == 18);
    assert("compute_graph_metrics"@.len() == 21);
    assert("Call"@.len() == 4);
    assert("Abort"@.len() == 5);
    assert("N"@.len() == 1);
    assert("Error"@.len() == 5);
    assert("Complete"@.len() == 8);
    assert("Aborted"@.len() == 7);
}

/// Whether a text is the one given.
fn is_named(name: &String, wanted: &str) -> (same: bool)
    ensures
        same == (name@ == wanted@),
{
    *name == String::from_str(wanted)
}

/// An array of two items.
fn array_of_two(first: Json, second: Json) -> (json: Json)
    ensures
        json@ == JsonView::Array(seq![first@, second@]),
{
    let mut items: Vec<Json> = Vec::new();
    items.push(first);
    items.push(second);
    proof {
        Json::lemma_view_of_array(items);
    }
    let json = Json::Array(items);
    assert(json@->Array_0 =~= seq![first@, second@]);
    json
}

/// The two items of an array of two.
fn as_pair(json: &Json) -> (pair: Option<(&Json, &Json)>)
    ensures
        match pair {
            Some((first, second)) => json@ is Array && json@->Array_0.len() == 2
                && json@->Array_0[0] == first@ && json@->Array_0[1] == second@,
            None => !(json@ is Array && json@->Array_0.len() == 2),
        },
{
    match json {
        Json::Array(items) => {
            proof {
                Json::lemma_view_of_array(*items);
            }
            if items.len() == 2 {
                Some((&items[0], &items[1]))
            } else {
                None
            }
        },
        _ => None,
    }
}

impl CallGenView {
    /// A call on the wire: an object with one member, named after the
    /// operation, which holds the parameters.
    pub open spec fn encoded(self) -> JsonView {
        match self {
            CallGenView::find_shortest_path(params) => JsonView::tagged(
                "find_shortest_path"@,
                params.encoded(),
            ),
            CallGenView::compute_graph_metrics(params) => JsonView::tagged(
                "compute_graph_metrics"@,
                params.encoded(),
            ),
        }
    }

    /// The call that a document stands for, if it stands for one.
    pub open spec fn decoded(json: JsonView) -> Option<CallGenView> {
        match json.as_tagged() {
            Some((name, params)) => if name == "find_shortest_path"@ {
                match ShortestPathParamsView::decoded(params) {
                    Some(params) => Some(CallGenView::find_shortest_path(params)),
                    None => None,
                }
            } else if name == "compute_graph_metrics"@ {
                match GraphMetricsParamsView::decoded(params) {
                    Some(params) => Some(CallGenView::compute_graph_metrics(params)),
                    None => None,
                }
            } else {
                None
            },
            None => None,
        }
    }

    /// A call that was encoded is decoded as itself.
    pub proof fn lemma_comes_back(self)
        ensures
            Self::decoded(self.encoded()) == Some(self),
    {
        lemma_tags_differ();
        match self {
            CallGenView::find_shortest_path(params) => params.lemma_comes_back(),
            CallGenView::compute_graph_metrics(params) => params.lemma_comes_back(),
        }
    }
}

impl CallGen {
    /// Encodes the call.
    pub fn to_json(&self) -> (json: Json)
        ensures
            json@ == self@.encoded(),
    {
        match self {
            CallGen::find_shortest_path(params) => Json::tagged(
                "find_shortest_path",
                params.to_json(),
            ),
            CallGen::compute_graph_metrics(params) => Json::tagged(
                "compute_graph_metrics",
                params.to_json(),
            ),
        }
    }

    /// Decodes a call.
    pub fn from_json(json: &Json) -> (call: Option<CallGen>)
        ensures
            match call {
                Some(call) => CallGenView::decoded(json@) == Some(call@),
                None => CallGenView::decoded(json@) is None,
            },
    {
        match json.as_tagged() {
            Some((name, params)) => {
                if is_named(name, "find_shortest_path") {
                    match ShortestPathParams::from_json(params) {
                        Some(params) => Some(CallGen::find_shortest_path(params)),
                        None => None,
                    }
                } else if is_named(name, "compute_graph_metrics") {
                    match GraphMetricsParams::from_json(params) {
                        Some(params) => Some(CallGen::compute_graph_metrics(params)),
                        None => None,
                    }
                } else {
                    None
                }
            },
            None => None,
        }
    }
}

impl ResponseNextGenView {
    /// A value on the wire: an object with one member, named after the
    /// operation, which holds the value.
    pub open spec fn encoded(self) -> JsonView {
        match self {
            ResponseNextGenView::find_shortest_path(result) => JsonView::tagged(
                "find_shortest_path"@,
                result.encoded(),
            ),
            ResponseNextGenView::compute_graph_metrics(metrics) => JsonView::tagged(
                "compute_graph_metrics"@,
                metrics.encoded(),
            ),
        }
    }

    /// The value that a document stands for, if it stands for one.
    pub open spec fn decoded(json: JsonView) -> Option<ResponseNextGenView> {
        match json.as_tagged() {
            Some((name, value)) => if name == "find_shortest_path"@ {
                match PathResultView::decoded(value) {
                    Some(result) => Some(ResponseNextGenView::find_shortest_path(result)),
                    None => None,
                }
            } else if name == "compute_graph_metrics"@ {
                match GraphMetrics::decoded(value) {
                    Some(metrics) => Some(ResponseNextGenView::compute_graph_metrics(metrics)),
                    None => None,
                }
            } else {
                None
            },
            None => None,
        }
    }

    /// A value that was encoded is decoded as itself.
    pub proof fn lemma_comes_back(self)
        ensures
            Self::decoded(self.encoded()) == Some(self),
    {
        lemma_tags_differ();
        match self {
            ResponseNextGenView::find_shortest_path(result) => result.lemma_comes_back(),
            ResponseNextGenView::compute_graph_metrics(metrics) => metrics.lemma_comes_back(),
        }
    }
}

impl ResponseNextGen {
    /// Encodes the value.
    pub fn to_json(&self) -> (json: Json)
        ensures
            json@ == self@.encoded(),
    {
        match self {
            ResponseNextGen::find_shortest_path(result) => Json::tagged(
                "find_shortest_path",
                result.to_json(),
            ),
            ResponseNextGen::compute_graph_metrics(metrics) => Json::tagged(
                "compute_graph_metrics",
                metrics.to_json(),
            ),
        }
    }

    /// Decodes a value.
    pub fn from_json(json: &Json) -> (value: Option<ResponseNextGen>)
        ensures
            match value {
                Some(value) => ResponseNextGenView::decoded(json@) == Some(value@),
                None => ResponseNextGenView::decoded(json@) is None,
            },
    {
        match json.as_tagged() {
            Some((name, value)) => {
                if is_named(name, "find_shortest_path") {
                    match PathResult::from_json(value) {
                        Some(result) => Some(ResponseNextGen::find_shortest_path(result)),
                        None => None,
                    }
                } else if is_named(name, "compute_graph_metrics") {
                    match GraphMetrics::from_json(value) {
                        Some(metrics) => Some(ResponseNextGen::compute_graph_metrics(metrics)),
                        None => None,
                    }
                } else {
                    None
                }
            },
            None => None,
        }
    }
}

impl ResponseEnumView {
    /// What is said of a call, on the wire: an object with one member, named
    /// `N` for a value and else after the outcome.
    pub open spec fn encoded(self) -> JsonView {
        match self {
            ResponseEnumView::Aborted(reason) => JsonView::tagged("Aborted"@, reason.encoded()),
            ResponseEnumView::Error(error) => JsonView::tagged("Error"@, error.encoded()),
            ResponseEnumView::Complete(notes) => JsonView::tagged("Complete"@, notes.encoded()),
            ResponseEnumView::N(value) => JsonView::tagged("N"@, value.encoded()),
        }
    }

    /// What a document says of a call, if it says anything.
    pub open spec fn decoded(json: JsonView) -> Option<ResponseEnumView> {
        match json.as_tagged() {
            Some((name, inner)) => if name == "Aborted"@ {
                match DevStringView::decoded(inner) {
                    Some(reason) => Some(ResponseEnumView::Aborted(reason)),
                    None => None,
                }
            } else if name == "Error"@ {
                match DevStringView::decoded(inner) {
                    Some(error) => Some(ResponseEnumView::Error(error)),
                    None => None,
                }
            } else if name == "Complete"@ {
                match DevStringView::decoded(inner) {
                    Some(notes) => Some(ResponseEnumView::Complete(notes)),
                    None => None,
                }
            } else if name == "N"@ {
                match ResponseNextGenView::decoded(inner) {
                    Some(value) => Some(ResponseEnumView::N(value)),
                    None => None,
                }
            } else {
                None
            },
            None => None,
        }
    }

    /// What was encoded is decoded as itself.
    pub proof fn lemma_comes_back(self)
        ensures
            Self::decoded(self.encoded()) == Some(self),
    {
        lemma_tags_differ();
        match self {
            ResponseEnumView::Aborted(reason) => reason.lemma_comes_back(),
            ResponseEnumView::Error(error) => error.lemma_comes_back(),
            ResponseEnumView::Complete(notes) => notes.lemma_comes_back(),
            ResponseEnumView::N(value) => value.lemma_comes_back(),
        }
    }
}

impl ResponseEnum {
    /// Encodes what is said of a call.
    pub fn to_json(&self) -> (json: Json)
        ensures
            json@ == self@.encoded(),
    {
        match self {
            ResponseEnum::Aborted(reason) => Json::tagged("Aborted", reason.to_json()),
            ResponseEnum::Error(error) => Json::tagged("Error", error.to_json()),
            ResponseEnum::Complete(notes) => Json::tagged("Complete", notes.to_json()),
            ResponseEnum::N(value) => Json::tagged("N", value.to_json()),
        }
    }

    /// Decodes what is said of a call.
    pub fn from_json(json: &Json) -> (response: Option<ResponseEnum>)
        ensures
            match response {
                Some(response) => ResponseEnumView::decoded(json@) == Some(response@),
                None => ResponseEnumView::decoded(json@) is None,
            },
    {
        match json.as_tagged() {
            Some((name, inner)) => {
                if is_named(name, "Aborted") {
                    match DevString::from_json(inner) {
                        Some(reason) => Some(ResponseEnum::Aborted(reason)),
                        None => None,
                    }
                } else if is_named(name, "Error") {
                    match DevString::from_json(inner) {
                        Some(error) => Some(ResponseEnum::Error(error)),
                        None => None,
                    }
                } else if is_named(name, "Complete") {
                    match DevString::from_json(inner) {
                        Some(notes) => Some(ResponseEnum::Complete(notes)),
                        None => None,
                    }
                } else if is_named(name, "N") {
                    match ResponseNextGen::from_json(inner) {
                        Some(value) => Some(ResponseEnum::N(value)),
                        None => None,
                    }
                } else {
                    None
                }
            },
            None => None,
        }
    }
}

impl WireResponseView {
    /// A reply on the wire: an array of the request id and what is said of
    /// the call.
    pub open spec fn encoded(self) -> JsonView {
        JsonView::Array(seq![JsonView::of_index(self.0), self.1.encoded()])
    }

    /// The reply that a document stands for, if it stands for one.
    pub open spec fn decoded(json: JsonView) -> Option<WireResponseView> {
        match json {
            JsonView::Array(items) => if items.len() == 2 {
                match (items[0].as_index(), ResponseEnumView::decoded(items[1])) {
                    (Some(id), Some(response)) => Some(WireResponseView(id, response)),
                    _ => None,
                }
            } else {
                None
            },
            _ => None,
        }
    }

    /// A reply that was encoded is decoded as itself.
    pub proof fn lemma_comes_back(self)
        ensures
            Self::decoded(self.encoded()) == Some(self),
    {
        self.1.lemma_comes_back();
    }
}

impl WireResponse {
    /// Encodes the reply.
    pub fn to_json(&self) -> (json: Json)
        ensures
            json@ == self@.encoded(),
    {
        array_of_two(Json::of_index(self.0), self.1.to_json())
    }

    /// Decodes a reply.
    pub fn from_json(json: &Json) -> (reply: Option<WireResponse>)
        ensures
            match reply {
                Some(reply) => WireResponseView::decoded(json@) == Some(reply@),
                None => WireResponseView::decoded(json@) is None,
            },
    {
        match as_pair(json) {
            Some((id, response)) => match (id.as_index(), ResponseEnum::from_json(response)) {
                (Some(id), Some(response)) => Some(WireResponse(id, response)),
                _ => None,
            },
            None => None,
        }
    }
}

impl RequestView {
    /// A request on the wire: an object with one member, `Call` or `Abort`,
    /// which holds an array of the request id and the call or the reason.
    pub open spec fn encoded(self) -> JsonView {
        match self {
            RequestView::Abort(id, reason) => JsonView::tagged(
                "Abort"@,
                JsonView::Array(seq![JsonView::of_index(id), reason.encoded()]),
            ),
            RequestView::Call(id, call) => JsonView::tagged(
                "Call"@,
                JsonView::Array(seq![JsonView::of_index(id), call.encoded()]),
            ),
        }
    }

    /// The request that a document stands for, if it stands for one.
    pub open spec fn decoded(json: JsonView) -> Option<RequestView> {
        match json.as_tagged() {
            Some((name, JsonView::Array(items))) => if items.len() != 2 {
                None
            } else if name == "Abort"@ {
                match (items[0].as_index(), DevStringView::decoded(items[1])) {
                    (Some(id), Some(reason)) => Some(RequestView::Abort(id, reason)),
                    _ => None,
                }
            } else if name == "Call"@ {
                match (items[0].as_index(), CallGenView::decoded(items[1])) {
                    (Some(id), Some(call)) => Some(RequestView::Call(id, call)),
                    _ => None,
                }
            } else {
                None
            },
            _ => None,
        }
    }

    /// A request that was encoded is decoded as itself.
    pub proof fn lemma_comes_back(self)
        ensures
            Self::decoded(self.encoded()) == Some(self),
    {
        lemma_tags_differ();
        match self {
            RequestView::Abort(_, reason) => reason.lemma_comes_back(),
            RequestView::Call(_, call) => call.lemma_comes_back(),
        }
    }
}

impl Request {
    /// Encodes the request.
    pub fn to_json(&self) -> (json: Json)
        ensures
            json@ == self@.encoded(),
    {
        match &self.0 {
            RequestEnum::Abort(id, reason) => Json::tagged(
                "Abort",
                array_of_two(Json::of_index(*id), reason.to_json()),
            ),
            RequestEnum::Call(id, call) => Json::tagged(
                "Call",
                array_of_two(Json::of_index(*id), call.to_json()),
            ),
        }
    }

    /// Decodes a request. A document of any other shape is no request.
    pub fn from_json(json: &Json) -> (request: Option<Request>)
        ensures
            match request {
                Some(request) => RequestView::decoded(json@) == Some(request@),
                None => RequestView::decoded(json@) is None,
            },
    {
        match json.as_tagged() {
            Some((name, inner)) => match as_pair(inner) {
                Some((id, rest)) => {
                    if is_named(name, "Abort") {
                        match (id.as_index(), DevString::from_json(rest)) {
                            (Some(id), Some(reason)) => Some(
                                Request(RequestEnum::Abort(id, reason)),
                            ),
                            _ => None,
                        }
                    } else if is_named(name, "Call") {
                        match (id.as_index(), CallGen::from_json(rest)) {
                            (Some(id), Some(call)) => Some(Request(RequestEnum::Call(id, call))),
                            _ => None,
                        }
                    } else {
                        None
                    }
                },
                None => None,
            },
            None => None,
        }
    }
}

/// A request of which only the envelope is read: a call with its request id,
/// and whatever stands for the operation.
#[allow(non_snake_case)]
#[derive(Debug)]
pub struct RequestParsingTest {
    pub Call: (usize, Json),
}

impl RequestParsingTest {
    /// What a document has to be to be read: an object in which `Call` is an
    /// array of a request id and one more item.
    pub open spec fn decoded(json: JsonView) -> Option<(usize, JsonView)> {
        match json.field("Call"@) {
            Some(JsonView::Array(items)) => if items.len() == 2 {
                match items[0].as_index() {
                    Some(id) => Some((id, items[1])),
                    None => None,
                }
            } else {
                None
            },
            _ => None,
        }
    }

    /// Reads the envelope of a call.
    pub fn from_json(json: &Json) -> (request: Option<RequestParsingTest>)
        ensures
            match request {
                Some(request) => Self::decoded(json@) == Some((request.Call.0, request.Call.1@)),
                None => Self::decoded(json@) is None,
            },
    {
        match json.field("Call") {
            Some(inner) => match as_pair(inner) {
                Some((id, rest)) => match id.as_index() {
                    Some(id) => Some(RequestParsingTest { Call: (id, rest.duplicate()) }),
                    None => None,
                },
                None => None,
            },
            None => None,
        }
    }
}

} // verus!
