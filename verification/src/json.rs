//! A JSON document as a tree of plain values.
//!
//! The wire format of the router is JSON. Reading and printing JSON text is
//! left to whoever owns the transport; the shapes of the messages are decided
//! here, on trees.

use vstd::prelude::*;
use vstd::string::StringExecFns;

verus! {

/// The readings of a JSON number: as an unsigned integer, as a signed
/// integer and as the bit pattern of a double, each where the number has it.
#[derive(Clone, Copy, Debug)]
pub struct JsonNumber {
    pub unsigned: Option<u64>,
    pub signed: Option<i64>,
    pub float_bits: Option<u64>,
}

/// A JSON document. An object keeps its members in the order given; a
/// lookup takes the first member of a name.
#[derive(Debug)]
pub enum Json {
    Null,
    Bool(bool),
    Number(JsonNumber),
    Text(String),
    Array(Vec<Json>),
    Object(Vec<(String, Json)>),
}

/// The mathematical value of a [`Json`] document.
pub enum JsonView {
    Null,
    Bool(bool),
    Number(JsonNumber),
    Text(Seq<char>),
    Array(Seq<JsonView>),
    Object(Seq<(Seq<char>, JsonView)>),
}

impl JsonNumber {
    /// A number known by its unsigned reading alone.
    pub open spec fn of_unsigned(n: u64) -> JsonNumber {
        JsonNumber { unsigned: Some(n), signed: None, float_bits: None }
    }

    /// A number known by its signed reading alone.
    pub open spec fn of_signed(n: i64) -> JsonNumber {
        JsonNumber { unsigned: None, signed: Some(n), float_bits: None }
    }

    /// A number known by the bit pattern of its double alone.
    pub open spec fn of_float_bits(bits: u64) -> JsonNumber {
        JsonNumber { unsigned: None, signed: None, float_bits: Some(bits) }
    }

    /// Makes a number from an unsigned integer.
    pub fn from_unsigned(n: u64) -> (number: JsonNumber)
        ensures
            number == Self::of_unsigned(n),
    {
        JsonNumber { unsigned: Some(n), signed: None, float_bits: None }
    }

    /// Makes a number from a signed integer.
    pub fn from_signed(n: i64) -> (number: JsonNumber)
        ensures
            number == Self::of_signed(n),
    {
        JsonNumber { unsigned: None, signed: Some(n), float_bits: None }
    }

    /// Makes a number from the bit pattern of a double.
    pub fn from_float_bits(bits: u64) -> (number: JsonNumber)
        ensures
            number == Self::of_float_bits(bits),
    {
        JsonNumber { unsigned: None, signed: None, float_bits: Some(bits) }
    }
}

impl Json {
    /// The mathematical value of the document.
    pub open spec fn model(&self) -> JsonView
        decreases self,
    {
        match self {
            Json::Null => JsonView::Null,
            Json::Bool(b) => JsonView::Bool(*b),
            Json::Number(n) => JsonView::Number(*n),
            Json::Text(s) => JsonView::Text(s@),
            Json::Array(items) => JsonView::Array(
                Seq::new(
                    items.len() as nat,
                    |i: int|
                        if 0 <= i < items.len() {
                            items[i].model()
                        } else {
                            JsonView::Null
                        },
                ),
            ),
            Json::Object(members) => JsonView::Object(
                Seq::new(
                    members.len() as nat,
                    |i: int|
                        if 0 <= i < members.len() {
                            (members[i].0@, members[i].1.model())
                        } else {
                            (Seq::empty(), JsonView::Null)
                        },
                ),
            ),
        }
    }
}

impl View for Json {
    type V = JsonView;

    open spec fn view(&self) -> JsonView {
        self.model()
    }
}

impl JsonView {
    /// Whether `at` is the place of the first member named `name`.
    pub open spec fn is_first_member(
        members: Seq<(Seq<char>, JsonView)>,
        name: Seq<char>,
        at: int,
    ) -> bool {
        &&& 0 <= at < members.len()
        &&& members[at].0 == name
        &&& forall|j: int| 0 <= j < at ==> (#[trigger] members[j]).0 != name
    }

    /// The value of the first member named `name` among `members`, if any.
    pub open spec fn member(members: Seq<(Seq<char>, JsonView)>, name: Seq<char>) -> Option<
        JsonView,
    > {
        if exists|at: int| Self::is_first_member(members, name, at) {
            Some(members[choose|at: int| Self::is_first_member(members, name, at)].1)
        } else {
            None
        }
    }

    /// The value of the member named `name`, if this is an object that has
    /// one.
    pub open spec fn field(self, name: Seq<char>) -> Option<JsonView> {
        match self {
            JsonView::Object(members) => Self::member(members, name),
            _ => None,
        }
    }

    /// The name and the value of the one member, if this is an object with
    /// exactly one member.
    pub open spec fn as_tagged(self) -> Option<(Seq<char>, JsonView)> {
        match self {
            JsonView::Object(members) => if members.len() == 1 {
                Some(members[0])
            } else {
                None
            },
            _ => None,
        }
    }

    /// The items, if this is an array.
    pub open spec fn as_array(self) -> Option<Seq<JsonView>> {
        match self {
            JsonView::Array(items) => Some(items),
            _ => None,
        }
    }

    /// The text, if this is a text.
    pub open spec fn as_text(self) -> Option<Seq<char>> {
        match self {
            JsonView::Text(text) => Some(text),
            _ => None,
        }
    }

    /// The number as an index or a count, if this is a number that reads as
    /// an unsigned integer which fits.
    pub open spec fn as_index(self) -> Option<usize> {
        match self {
            JsonView::Number(number) => match number.unsigned {
                Some(n) => if n <= usize::MAX {
                    Some(n as usize)
                } else {
                    None
                },
                None => None,
            },
            _ => None,
        }
    }

    /// The bit pattern of the number's double, if this is a number that
    /// reads as one.
    pub open spec fn as_float_bits(self) -> Option<u64> {
        match self {
            JsonView::Number(number) => number.float_bits,
            _ => None,
        }
    }

    /// The number that stands for an index or a count.
    pub open spec fn of_index(n: usize) -> JsonView {
        JsonView::Number(JsonNumber::of_unsigned(n as u64))
    }

    /// The number that stands for a double with the given bit pattern.
    pub open spec fn of_float_bits(bits: u64) -> JsonView {
        JsonView::Number(JsonNumber::of_float_bits(bits))
    }

    /// An object with the one member given.
    pub open spec fn tagged(name: Seq<char>, value: JsonView) -> JsonView {
        JsonView::Object(seq![(name, value)])
    }

    /// What `member` says where the first member of a name is known.
    pub proof fn lemma_member_at(members: Seq<(Seq<char>, JsonView)>, name: Seq<char>, at: int)
        requires
            Self::is_first_member(members, name, at),
        ensures
            Self::member(members, name) == Some(members[at].1),
    {
        let chosen = choose|i: int| Self::is_first_member(members, name, i);
        if chosen < at {
            assert(members[chosen].0 == name);
        }
        if at < chosen {
            assert(members[at].0 == name);
        }
    }

    /// A member of an object is smaller than the object.
    pub proof fn lemma_member_is_smaller(self, name: Seq<char>)
        ensures
            self.field(name) matches Some(value) ==> decreases_to!(self => value),
    {
        if let JsonView::Object(members) = self {
            if exists|at: int| Self::is_first_member(members, name, at) {
                let at = choose|at: int| Self::is_first_member(members, name, at);
                assert(decreases_to!(self => members));
                assert(decreases_to!(members => members[at]));
                assert(decreases_to!(members[at] => members[at].1));
            }
        }
    }

    /// Of two lists of members one after the other, the first member of a
    /// name is that of the first list, or else that of the second.
    pub proof fn lemma_member_of_both(
        first: Seq<(Seq<char>, JsonView)>,
        second: Seq<(Seq<char>, JsonView)>,
        name: Seq<char>,
    )
        ensures
            Self::member(first + second, name) == match Self::member(first, name) {
                Some(value) => Some(value),
                None => Self::member(second, name),
            },
    {
        let both = first + second;
        if exists|at: int| Self::is_first_member(first, name, at) {
            let at = choose|at: int| Self::is_first_member(first, name, at);
            assert forall|j: int| 0 <= j < at implies (#[trigger] both[j]).0 != name by {
                assert(first[j].0 != name);
            }
            assert(Self::is_first_member(both, name, at));
            Self::lemma_member_at(both, name, at);
        } else {
            assert forall|j: int| 0 <= j < first.len() implies (#[trigger] first[j]).0
                != name by {
                if first[j].0 == name {
                    Self::lemma_some_first_member(first, name, j);
                }
            }
            if exists|at: int| Self::is_first_member(second, name, at) {
                let at = choose|at: int| Self::is_first_member(second, name, at);
                let here = first.len() + at;
                assert forall|j: int| 0 <= j < here implies (#[trigger] both[j]).0 != name by {
                    if j < first.len() {
                        assert(first[j].0 != name);
                    } else {
                        assert(second[j - first.len()].0 != name);
                    }
                }
                assert(both[here] == second[at]);
                assert(Self::is_first_member(both, name, here));
                Self::lemma_member_at(both, name, here);
            } else {
                assert forall|k: int| !Self::is_first_member(both, name, k) by {
                    if Self::is_first_member(both, name, k) {
                        if k < first.len() {
                            assert(first[k].0 == name);
                        } else {
                            let at = k - first.len();
                            assert(second[at] == both[k]);
                            assert forall|j: int| 0 <= j < at implies (#[trigger] second[j]).0
                                != name by {
                                assert(both[first.len() + j] == second[j]);
                            }
                            assert(Self::is_first_member(second, name, at));
                        }
                    }
                }
            }
        }
    }

    /// Where a member has the name, some member has it first.
    pub proof fn lemma_some_first_member(
        members: Seq<(Seq<char>, JsonView)>,
        name: Seq<char>,
        at: int,
    )
        requires
            0 <= at < members.len(),
            members[at].0 == name,
        ensures
            exists|first: int| Self::is_first_member(members, name, first),
        decreases at,
    {
        if exists|j: int| 0 <= j < at && (#[trigger] members[j]).0 == name {
            let j = choose|j: int| 0 <= j < at && (#[trigger] members[j]).0 == name;
            Self::lemma_some_first_member(members, name, j);
        } else {
            assert(Self::is_first_member(members, name, at));
        }
    }

    /// What `member` says where no member has the name.
    pub proof fn lemma_no_member(members: Seq<(Seq<char>, JsonView)>, name: Seq<char>)
        requires
            forall|j: int| 0 <= j < members.len() ==> (#[trigger] members[j]).0 != name,
        ensures
            Self::member(members, name) is None,
    {
    }
}

impl Json {
    /// The value of an object, member by member.
    pub proof fn lemma_view_of_object(members: Vec<(String, Json)>)
        ensures
            Json::Object(members)@ is Object,
            Json::Object(members)@->Object_0.len() == members.len(),
            forall|i: int|
                0 <= i < members.len() ==> #[trigger] Json::Object(members)@->Object_0[i] == (
                    members[i].0@,
                    members[i].1@,
                ),
    {
    }

    /// The value of an array, item by item.
    pub proof fn lemma_view_of_array(items: Vec<Json>)
        ensures
            Json::Array(items)@ is Array,
            Json::Array(items)@->Array_0.len() == items.len(),
            forall|i: int|
                0 <= i < items.len() ==> #[trigger] Json::Array(items)@->Array_0[i] == items[i]@,
    {
    }

    /// The value of the first member named `name`, if this is an object that
    /// has one.
    pub fn field(&self, name: &str) -> (value: Option<&Json>)
        ensures
            match value {
                Some(value) => self@.field(name@) == Some(value@) && decreases_to!(self => value),
                None => self@.field(name@) is None,
            },
    {
        match self {
            Json::Object(members) => {
                let wanted = String::from_str(name);
                let mut at: usize = 0;
                while at < members.len()
                    invariant
                        at <= members.len(),
                        wanted@ == name@,
                        *self == Json::Object(*members),
                        forall|j: int| 0 <= j < at ==> (#[trigger] members@[j]).0@ != name@,
                    decreases members.len() - at,
                {
                    if members[at].0 == wanted {
                        proof {
                            let seen = self@->Object_0;
                            Self::lemma_view_of_object(*members);
                            assert forall|j: int| 0 <= j < at implies (#[trigger] seen[j]).0
                                != name@ by {
                                assert(members@[j].0@ != name@);
                            }
                            JsonView::lemma_member_at(seen, name@, at as int);
                            vstd::std_specs::vec::axiom_vec_index_decreases(*members, at as int);
                            assert(decreases_to!(self => self->Object_0));
                            assert(decreases_to!(*members => members[at as int]));
                            assert(decreases_to!(members[at as int] => members[at as int].1));
                        }
                        return Some(&members[at].1);
                    }
                    at += 1;
                }
                proof {
                    let seen = self@->Object_0;
                    Self::lemma_view_of_object(*members);
                    assert forall|j: int| 0 <= j < seen.len() implies (#[trigger] seen[j]).0
                        != name@ by {
                        assert(members@[j].0@ != name@);
                    }
                    JsonView::lemma_no_member(seen, name@);
                }
                None
            },
            _ => None,
        }
    }

    /// The name and the value of the one member, if this is an object with
    /// exactly one member.
    pub fn as_tagged(&self) -> (tagged: Option<(&String, &Json)>)
        ensures
            match tagged {
                Some((name, value)) => self@.as_tagged() == Some((name@, value@)),
                None => self@.as_tagged() is None,
            },
    {
        match self {
            Json::Object(members) => {
                if members.len() == 1 {
                    proof {
                        Self::lemma_view_of_object(*members);
                    }
                    Some((&members[0].0, &members[0].1))
                } else {
                    proof {
                        Self::lemma_view_of_object(*members);
                    }
                    None
                }
            },
            _ => None,
        }
    }

    /// The items, if this is an array.
    pub fn as_array(&self) -> (items: Option<&Vec<Json>>)
        ensures
            match items {
                Some(items) => *self == Json::Array(*items),
                None => self@.as_array() is None,
            },
    {
        match self {
            Json::Array(items) => Some(items),
            _ => None,
        }
    }

    /// The text, if this is a text.
    pub fn as_text(&self) -> (text: Option<&String>)
        ensures
            match text {
                Some(text) => self@.as_text() == Some(text@),
                None => self@.as_text() is None,
            },
    {
        match self {
            Json::Text(text) => Some(text),
            _ => None,
        }
    }

    /// The number as an index or a count, if this is a number that reads as
    /// an unsigned integer which fits.
    pub fn as_index(&self) -> (index: Option<usize>)
        ensures
            index == self@.as_index(),
    {
        match self {
            Json::Number(number) => match number.unsigned {
                Some(n) => if n <= usize::MAX as u64 {
                    Some(n as usize)
                } else {
                    None
                },
                None => None,
            },
            _ => None,
        }
    }

    /// The bit pattern of the number's double, if this is a number that
    /// reads as one.
    pub fn as_float_bits(&self) -> (bits: Option<u64>)
        ensures
            bits == self@.as_float_bits(),
    {
        match self {
            Json::Number(number) => number.float_bits,
            _ => None,
        }
    }

    /// The number that stands for an index or a count.
    pub fn of_index(n: usize) -> (number: Json)
        ensures
            number@ == JsonView::of_index(n),
    {
        Json::Number(JsonNumber::from_unsigned(n as u64))
    }

    /// The number that stands for a double with the given bit pattern.
    pub fn of_float_bits(bits: u64) -> (number: Json)
        ensures
            number@ == JsonView::of_float_bits(bits),
    {
        Json::Number(JsonNumber::from_float_bits(bits))
    }

    /// An object with the one member given.
    pub fn tagged(name: &str, value: Json) -> (json: Json)
        ensures
            json@ == JsonView::tagged(name@, value@),
    {
        let mut members: Vec<(String, Json)> = Vec::new();
        members.push((String::from_str(name), value));
        let json = Json::Object(members);
        assert(json@->Object_0 =~= seq![(name@, value@)]);
        json
    }

    /// A copy of the document.
    pub fn duplicate(&self) -> (copy: Json)
        ensures
            copy@ == self@,
        decreases self,
    {
        match self {
            Json::Null => Json::Null,
            Json::Bool(b) => Json::Bool(*b),
            Json::Number(n) => Json::Number(*n),
            Json::Text(s) => Json::Text(s.clone()),
            Json::Array(items) => {
                let mut out: Vec<Json> = Vec::new();
                let mut i: usize = 0;
                while i < items.len()
                    invariant
                        i <= items.len(),
                        out@.len() == i,
                        *self == Json::Array(*items),
                        forall|k: int| 0 <= k < i ==> out@[k]@ == items@[k]@,
                    decreases items.len() - i,
                {
                    proof {
                        vstd::std_specs::vec::axiom_vec_index_decreases(*items, i as int);
                        assert(decreases_to!(self => self->Array_0));
                        assert(decreases_to!(*items => items[i as int]));
                    }
                    let item = items[i].duplicate();
                    out.push(item);
                    i += 1;
                }
                let copy = Json::Array(out);
                assert(copy@->Array_0 =~= self@->Array_0);
                copy
            },
            Json::Object(members) => {
                let mut out: Vec<(String, Json)> = Vec::new();
                let mut i: usize = 0;
                while i < members.len()
                    invariant
                        i <= members.len(),
                        out@.len() == i,
                        *self == Json::Object(*members),
                        forall|k: int|
                            0 <= k < i ==> out@[k].0@ == members@[k].0@ && out@[k].1@
                                == members@[k].1@,
                    decreases members.len() - i,
                {
                    proof {
                        vstd::std_specs::vec::axiom_vec_index_decreases(*members, i as int);
                        assert(decreases_to!(self => self->Object_0));
                        assert(decreases_to!(*members => members[i as int]));
                        assert(decreases_to!(members[i as int] => members[i as int].1));
                    }
                    let value = members[i].1.duplicate();
                    out.push((members[i].0.clone(), value));
                    i += 1;
                }
                let copy = Json::Object(out);
                assert(copy@->Object_0 =~= self@->Object_0);
                copy
            },
        }
    }
}

impl Clone for Json {
    fn clone(&self) -> (copy: Json)
        ensures
            copy@ == self@,
    {
        self.duplicate()
    }
}

} // verus!
