//! Diagnostic texts on the wire.
//!
//! A text with a message and nothing else is a JSON text. Any other is an
//! object with the member `message` and, for what it has, the members
//! `records`, `records_dbg` and `cause`. A decoder takes either form; a
//! missing member stands for nothing recorded and no cause, and so does the
//! cause `null`.

use crate::json::Json;
use crate::json::JsonView;
use crate::types::DevString;
use crate::types::DevStringView;
use vstd::prelude::*;
use vstd::string::StringExecFns;

verus! {

/// The names of the members differ from each other.
pub proof fn lemma_member_names_differ()
    ensures
        "message"@ != "records"@,
        "message"@ != "records_dbg"@,
        "message"@ != "cause"@,
        "records"@ != "records_dbg"@,
        "records"@ != "cause"@,
        "records_dbg"@ != "cause"@,
{
    reveal_strlit("message");
    reveal_strlit("records");
    reveal_strlit("records_dbg");
    reveal_strlit("cause");
    assert("message"@[0] != "records"@[0]);
    assert("message"@.len() == 7);
    assert("records"@.len() == 7);
    assert("records_dbg"@.len() == 11);
    assert("cause"@.len() == 5);
}

impl DevStringView {
    /// Whether the text has a message and nothing else.
    pub open spec fn is_plain(self) -> bool {
        self.records.len() == 0 && self.records_dbg.len() == 0 && self.cause is None
    }

    /// The records for debugging as members of an object.
    pub open spec fn texts_encoded(texts: Seq<(Seq<char>, Seq<char>)>) -> Seq<
        (Seq<char>, JsonView),
    > {
        Seq::new(texts.len(), |i: int| (texts[i].0, JsonView::Text(texts[i].1)))
    }

    /// The records for debugging that the members of an object stand for,
    /// if each of them is a text.
    pub open spec fn texts_decoded(members: Seq<(Seq<char>, JsonView)>) -> Option<
        Seq<(Seq<char>, Seq<char>)>,
    > {
        if forall|i: int| 0 <= i < members.len() ==> (#[trigger] members[i]).1 is Text {
            Some(Seq::new(members.len(), |i: int| (members[i].0, members[i].1->Text_0)))
        } else {
            None
        }
    }

    /// The member `records`, if anything is recorded.
    pub open spec fn records_member(self) -> Seq<(Seq<char>, JsonView)> {
        if self.records.len() == 0 {
            Seq::empty()
        } else {
            seq![("records"@, JsonView::Object(self.records))]
        }
    }

    /// The member `records_dbg`, if anything is recorded for debugging.
    pub open spec fn records_dbg_member(self) -> Seq<(Seq<char>, JsonView)> {
        if self.records_dbg.len() == 0 {
            Seq::empty()
        } else {
            seq![("records_dbg"@, JsonView::Object(Self::texts_encoded(self.records_dbg)))]
        }
    }

    /// The member `cause`, if the text has a cause.
    pub open spec fn cause_member(self) -> Seq<(Seq<char>, JsonView)>
        decreases self, 0int,
    {
        match self.cause {
            Some(cause) => seq![("cause"@, (*cause).encoded())],
            None => Seq::empty(),
        }
    }

    /// The text on the wire.
    pub open spec fn encoded(self) -> JsonView
        decreases self, 1int,
    {
        if self.is_plain() {
            JsonView::Text(self.message)
        } else {
            JsonView::Object(
                seq![("message"@, JsonView::Text(self.message))] + self.records_member()
                    + self.records_dbg_member() + self.cause_member(),
            )
        }
    }

    /// The text that a document stands for, if it stands for one.
    pub open spec fn decoded(json: JsonView) -> Option<DevStringView>
        decreases json,
    {
        match json {
            JsonView::Text(message) => Some(DevStringView::plain(message)),
            JsonView::Object(_) => {
                let message = match json.field("message"@) {
                    Some(JsonView::Text(message)) => Some(message),
                    _ => None,
                };
                let records = match json.field("records"@) {
                    None => Some(Seq::empty()),
                    Some(JsonView::Object(records)) => Some(records),
                    Some(_) => None,
                };
                let records_dbg = match json.field("records_dbg"@) {
                    None => Some(Seq::empty()),
                    Some(JsonView::Object(records)) => Self::texts_decoded(records),
                    Some(_) => None,
                };
                let cause = match json.field("cause"@) {
                    None => Some(None),
                    Some(JsonView::Null) => Some(None),
                    Some(cause) => {
                        proof {
                            json.lemma_member_is_smaller("cause"@);
                        }
                        match Self::decoded(cause) {
                            Some(cause) => Some(Some(Box::new(cause))),
                            None => None,
                        }
                    },
                };
                match (message, records, records_dbg, cause) {
                    (Some(message), Some(records), Some(records_dbg), Some(cause)) => Some(
                        DevStringView { message, records, records_dbg, cause },
                    ),
                    _ => None,
                }
            },
            _ => None,
        }
    }

    /// What is encoded is a text or an object, never `null`.
    pub proof fn lemma_encoded_is_text_or_object(self)
        ensures
            self.encoded() is Text || self.encoded() is Object,
    {
    }

    /// The members of the object that a text with more than a message is
    /// encoded as.
    pub proof fn lemma_members_of_encoded(self)
        requires
            !self.is_plain(),
        ensures
            self.encoded().field("message"@) == Some(JsonView::Text(self.message)),
            self.encoded().field("records"@) == if self.records.len() == 0 {
                None
            } else {
                Some(JsonView::Object(self.records))
            },
            self.encoded().field("records_dbg"@) == if self.records_dbg.len() == 0 {
                None
            } else {
                Some(JsonView::Object(Self::texts_encoded(self.records_dbg)))
            },
            self.encoded().field("cause"@) == match self.cause {
                Some(cause) => Some((*cause).encoded()),
                None => None,
            },
    {
        lemma_member_names_differ();
        let head = seq![("message"@, JsonView::Text(self.message))];
        let a = self.records_member();
        let b = self.records_dbg_member();
        let c = self.cause_member();
        assert(self.encoded() == JsonView::Object(head + a + b + c));
        assert forall|name: Seq<char>|
            name == "message"@ || name == "records"@ || name == "records_dbg"@ || name
                == "cause"@ implies #[trigger] JsonView::member(head + a + b + c, name)
            == match JsonView::member(head, name) {
            Some(value) => Some(value),
            None => match JsonView::member(a, name) {
                Some(value) => Some(value),
                None => match JsonView::member(b, name) {
                    Some(value) => Some(value),
                    None => JsonView::member(c, name),
                },
            },
        } by {
            JsonView::lemma_member_of_both(head + a + b, c, name);
            JsonView::lemma_member_of_both(head + a, b, name);
            JsonView::lemma_member_of_both(head, a, name);
        }
        Self::lemma_member_of_one("message"@, JsonView::Text(self.message), "message"@);
        Self::lemma_member_of_one("message"@, JsonView::Text(self.message), "records"@);
        Self::lemma_member_of_one("message"@, JsonView::Text(self.message), "records_dbg"@);
        Self::lemma_member_of_one("message"@, JsonView::Text(self.message), "cause"@);
        Self::lemma_member_of_one("records"@, JsonView::Object(self.records), "records"@);
        Self::lemma_member_of_one("records"@, JsonView::Object(self.records), "records_dbg"@);
        Self::lemma_member_of_one("records"@, JsonView::Object(self.records), "cause"@);
        let dbg = JsonView::Object(Self::texts_encoded(self.records_dbg));
        Self::lemma_member_of_one("records_dbg"@, dbg, "records"@);
        Self::lemma_member_of_one("records_dbg"@, dbg, "records_dbg"@);
        Self::lemma_member_of_one("records_dbg"@, dbg, "cause"@);
        if let Some(cause) = self.cause {
            Self::lemma_member_of_one("cause"@, (*cause).encoded(), "records"@);
            Self::lemma_member_of_one("cause"@, (*cause).encoded(), "records_dbg"@);
            Self::lemma_member_of_one("cause"@, (*cause).encoded(), "cause"@);
        }
        JsonView::lemma_no_member(Seq::empty(), "records"@);
        JsonView::lemma_no_member(Seq::empty(), "records_dbg"@);
        JsonView::lemma_no_member(Seq::empty(), "cause"@);
    }

    /// The member of a name in a list of one member.
    pub proof fn lemma_member_of_one(name: Seq<char>, value: JsonView, wanted: Seq<char>)
        ensures
            JsonView::member(seq![(name, value)], wanted) == if name == wanted {
                Some(value)
            } else {
                None
            },
    {
        if name == wanted {
            JsonView::lemma_member_at(seq![(name, value)], wanted, 0);
        } else {
            JsonView::lemma_no_member(seq![(name, value)], wanted);
        }
    }

    /// Records for debugging that were encoded are decoded as themselves.
    pub proof fn lemma_texts_come_back(texts: Seq<(Seq<char>, Seq<char>)>)
        ensures
            Self::texts_decoded(Self::texts_encoded(texts)) == Some(texts),
    {
        assert(Self::texts_decoded(Self::texts_encoded(texts)).unwrap() =~= texts);
    }

    /// A text that was encoded is decoded as itself.
    pub proof fn lemma_comes_back(self)
        ensures
            Self::decoded(self.encoded()) == Some(self),
        decreases self,
    {
        if self.is_plain() {
            assert(self.records =~= Seq::empty());
            assert(self.records_dbg =~= Seq::empty());
        } else {
            self.lemma_members_of_encoded();
            Self::lemma_texts_come_back(self.records_dbg);
            if self.records.len() == 0 {
                assert(self.records =~= Seq::empty());
            }
            if self.records_dbg.len() == 0 {
                assert(self.records_dbg =~= Seq::empty());
            }
            if let Some(cause) = self.cause {
                (*cause).lemma_comes_back();
                (*cause).lemma_encoded_is_text_or_object();
            }
        }
    }
}

/// The records as the members of an object.
fn records_to_members(records: &Vec<(String, Json)>) -> (members: Vec<(String, Json)>)
    ensures
        members@.len() == records@.len(),
        forall|i: int|
            0 <= i < records@.len() ==> (#[trigger] members@[i]).0@ == records@[i].0@
                && members@[i].1@ == records@[i].1@,
{
    let mut members: Vec<(String, Json)> = Vec::new();
    let mut i: usize = 0;
    while i < records.len()
        invariant
            i <= records.len(),
            members@.len() == i,
            forall|k: int|
                0 <= k < i ==> (#[trigger] members@[k]).0@ == records@[k].0@ && members@[k].1@
                    == records@[k].1@,
        decreases records.len() - i,
    {
        members.push((records[i].0.clone(), records[i].1.duplicate()));
        i += 1;
    }
    members
}

/// The records for debugging as the members of an object.
fn texts_to_members(texts: &Vec<(String, String)>) -> (members: Vec<(String, Json)>)
    ensures
        members@.len() == texts@.len(),
        forall|i: int|
            0 <= i < texts@.len() ==> (#[trigger] members@[i]).0@ == texts@[i].0@
                && members@[i].1@ == JsonView::Text(texts@[i].1@),
{
    let mut members: Vec<(String, Json)> = Vec::new();
    let mut i: usize = 0;
    while i < texts.len()
        invariant
            i <= texts.len(),
            members@.len() == i,
            forall|k: int|
                0 <= k < i ==> (#[trigger] members@[k]).0@ == texts@[k].0@ && members@[k].1@
                    == JsonView::Text(texts@[k].1@),
        decreases texts.len() - i,
    {
        members.push((texts[i].0.clone(), Json::Text(texts[i].1.clone())));
        i += 1;
    }
    members
}

/// The records for debugging that the members of an object stand for, if
/// each of them is a text.
fn members_to_texts(members: &Vec<(String, Json)>) -> (texts: Option<Vec<(String, String)>>)
    ensures
        match texts {
            Some(texts) => {
                &&& texts@.len() == members@.len()
                &&& forall|i: int|
                    0 <= i < members@.len() ==> (#[trigger] members@[i]).1@ == JsonView::Text(
                        texts@[i].1@,
                    ) && texts@[i].0@ == members@[i].0@
            },
            None => exists|i: int| 0 <= i < members@.len() && !((#[trigger] members@[i]).1@ is Text),
        },
{
    let mut texts: Vec<(String, String)> = Vec::new();
    let mut i: usize = 0;
    while i < members.len()
        invariant
            i <= members.len(),
            texts@.len() == i,
            forall|k: int|
                0 <= k < i ==> (#[trigger] members@[k]).1@ == JsonView::Text(texts@[k].1@)
                    && texts@[k].0@ == members@[k].0@,
        decreases members.len() - i,
    {
        match &members[i].1 {
            Json::Text(text) => {
                texts.push((members[i].0.clone(), text.clone()));
            },
            _ => {
                assert(!(members@[i as int].1@ is Text));
                return None;
            },
        }
        i += 1;
    }
    Some(texts)
}

impl DevString {
    /// Encodes the text.
    pub fn to_json(&self) -> (json: Json)
        ensures
            json@ == self@.encoded(),
        decreases self,
    {
        if self.records.len() == 0 && self.records_dbg.len() == 0 && self.cause.is_none() {
            return Json::Text(self.message.clone());
        }
        let mut members: Vec<(String, Json)> = Vec::new();
        members.push((String::from_str("message"), Json::Text(self.message.clone())));
        if self.records.len() > 0 {
            let records = records_to_members(&self.records);
            proof {
                Json::lemma_view_of_object(records);
            }
            let object = Json::Object(records);
            assert(object@->Object_0 =~= self@.records);
            members.push((String::from_str("records"), object));
        }
        if self.records_dbg.len() > 0 {
            let texts = texts_to_members(&self.records_dbg);
            proof {
                Json::lemma_view_of_object(texts);
            }
            let object = Json::Object(texts);
            assert(object@->Object_0 =~= DevStringView::texts_encoded(self@.records_dbg));
            members.push((String::from_str("records_dbg"), object));
        }
        match &self.cause {
            Some(cause) => {
                let encoded = (**cause).to_json();
                members.push((String::from_str("cause"), encoded));
            },
            None => {},
        }
        proof {
            Json::lemma_view_of_object(members);
        }
        let json = Json::Object(members);
        assert(json@->Object_0 =~= seq![("message"@, JsonView::Text(self@.message))]
            + self@.records_member() + self@.records_dbg_member() + self@.cause_member());
        json
    }

    /// Decodes a text.
    pub fn from_json(json: &Json) -> (text: Option<DevString>)
        ensures
            match text {
                Some(text) => DevStringView::decoded(json@) == Some(text@),
                None => DevStringView::decoded(json@) is None,
            },
        decreases json,
    {
        match json {
            Json::Text(message) => {
                let text = DevString {
                    message: message.clone(),
                    records: Vec::new(),
                    records_dbg: Vec::new(),
                    cause: None,
                };
                assert(text@.records =~= Seq::empty());
                assert(text@.records_dbg =~= Seq::empty());
                Some(text)
            },
            Json::Object(_) => {
                let message = match json.field("message") {
                    Some(Json::Text(message)) => message.clone(),
                    _ => {
                        return None;
                    },
                };
                let records = match json.field("records") {
                    None => Vec::new(),
                    Some(Json::Object(members)) => {
                        proof {
                            Json::lemma_view_of_object(*members);
                        }
                        records_to_members(members)
                    },
                    Some(_) => {
                        return None;
                    },
                };
                let records_dbg = match json.field("records_dbg") {
                    None => Vec::new(),
                    Some(Json::Object(members)) => {
                        proof {
                            Json::lemma_view_of_object(*members);
                        }
                        match members_to_texts(members) {
                            Some(texts) => texts,
                            None => {
                                proof {
                                    let i = choose|i: int|
                                        0 <= i < members@.len() && !((
                                        #[trigger] members@[i]).1@ is Text);
                                    let seen = Json::Object(*members)@->Object_0;
                                    assert(!(seen[i].1 is Text));
                                }
                                return None;
                            },
                        }
                    },
                    Some(_) => {
                        return None;
                    },
                };
                let cause = match json.field("cause") {
                    None => None,
                    Some(Json::Null) => None,
                    Some(cause) => match DevString::from_json(cause) {
                        Some(cause) => Some(Box::new(cause)),
                        None => {
                            return None;
                        },
                    },
                };
                let text = DevString { message, records, records_dbg, cause };
                proof {
                    let decoded = DevStringView::decoded(json@).unwrap();
                    assert(text@.records =~= decoded.records);
                    assert(text@.records_dbg =~= decoded.records_dbg);
                }
                Some(text)
            },
            _ => None,
        }
    }
}

} // verus!
