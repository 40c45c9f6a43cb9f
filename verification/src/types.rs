//! Values that travel with calls and replies: a point in time, and a
//! diagnostic text with named records and a chain of causes.

use crate::json::Json;
use crate::json::JsonView;
use vstd::prelude::*;

verus! {

/// The number of seconds in a day.
pub const SECONDS_PER_DAY: i64 = 86400;

/// A point in time, in whole seconds since the Unix epoch.
#[allow(non_snake_case)]
#[derive(Clone, Copy, Debug, PartialEq, Eq, Structural, PartialOrd, Ord, Hash)]
pub struct At {
    pub UNIX_SECS: i64,
}

impl At {
    /// The point in time `days` days before this one.
    pub fn minus_days(&self, days: i64) -> (at: At)
        requires
            i64::MIN <= days * SECONDS_PER_DAY <= i64::MAX,
            i64::MIN <= self.UNIX_SECS - days * SECONDS_PER_DAY <= i64::MAX,
        ensures
            at.UNIX_SECS == self.UNIX_SECS - days * SECONDS_PER_DAY,
    {
        let secs: i64 = self.UNIX_SECS - days * SECONDS_PER_DAY;
        At { UNIX_SECS: secs }
    }

    /// The point in time `days` days after this one.
    pub fn plus_days(&self, days: i64) -> (at: At)
        requires
            i64::MIN <= days * SECONDS_PER_DAY <= i64::MAX,
            i64::MIN <= self.UNIX_SECS + days * SECONDS_PER_DAY <= i64::MAX,
        ensures
            at.UNIX_SECS == self.UNIX_SECS + days * SECONDS_PER_DAY,
    {
        let secs: i64 = self.UNIX_SECS + days * SECONDS_PER_DAY;
        At { UNIX_SECS: secs }
    }
}

/// Reports whether a flag is unset.
pub fn is_false(value: &bool) -> (unset: bool)
    ensures
        unset == !*value,
{
    !*value
}

/// Reports whether a count is zero.
pub fn is_zero_u32(value: &u32) -> (zero: bool)
    ensures
        zero == (*value == 0),
{
    *value == 0
}

/// A diagnostic text: a message, records by name, and what caused it.
///
/// Each of the two lists of records stands for a map: a name occurs at most
/// once in a list that [`DevString::with`] and [`DevString::with_dbg`] built.
#[derive(Debug)]
pub struct DevString {
    pub message: String,
    pub records: Vec<(String, Json)>,
    pub records_dbg: Vec<(String, String)>,
    pub cause: Option<Box<DevString>>,
}

/// The mathematical value of a [`DevString`].
pub struct DevStringView {
    pub message: Seq<char>,
    pub records: Seq<(Seq<char>, JsonView)>,
    pub records_dbg: Seq<(Seq<char>, Seq<char>)>,
    pub cause: Option<Box<DevStringView>>,
}

impl DevString {
    /// The mathematical value of the text.
    pub open spec fn model(&self) -> DevStringView
        decreases self,
    {
        DevStringView {
            message: self.message@,
            records: Seq::new(
                self.records.len() as nat,
                |i: int| (self.records[i].0@, self.records[i].1@),
            ),
            records_dbg: Seq::new(
                self.records_dbg.len() as nat,
                |i: int| (self.records_dbg[i].0@, self.records_dbg[i].1@),
            ),
            cause: match self.cause {
                Some(cause) => Some(Box::new((*cause).model())),
                None => None,
            },
        }
    }
}

impl View for DevString {
    type V = DevStringView;

    open spec fn view(&self) -> DevStringView {
        self.model()
    }
}

impl DevStringView {
    /// A text with a message and nothing else.
    pub open spec fn plain(message: Seq<char>) -> DevStringView {
        DevStringView {
            message,
            records: Seq::empty(),
            records_dbg: Seq::empty(),
            cause: None,
        }
    }

    /// Whether `at` is the place of the first record named `name`.
    pub open spec fn is_first_named<V>(entries: Seq<(Seq<char>, V)>, name: Seq<char>, at: int) -> bool {
        &&& 0 <= at < entries.len()
        &&& entries[at].0 == name
        &&& forall|j: int| 0 <= j < at ==> (#[trigger] entries[j]).0 != name
    }

    /// The place of the first record named `name`, or the length of the list
    /// if there is none.
    pub open spec fn position<V>(entries: Seq<(Seq<char>, V)>, name: Seq<char>) -> int {
        if exists|at: int| Self::is_first_named(entries, name, at) {
            choose|at: int| Self::is_first_named(entries, name, at)
        } else {
            entries.len() as int
        }
    }

    /// The list after `value` has been recorded under `name`: in the place of
    /// the record that had the name, or at the end.
    pub open spec fn recorded<V>(entries: Seq<(Seq<char>, V)>, name: Seq<char>, value: V) -> Seq<
        (Seq<char>, V),
    > {
        let at = Self::position(entries, name);
        if at < entries.len() {
            entries.update(at, (name, value))
        } else {
            entries.push((name, value))
        }
    }

    /// Whether no name occurs twice in the list.
    pub open spec fn distinct_names<V>(entries: Seq<(Seq<char>, V)>) -> bool {
        forall|i: int, j: int|
            0 <= i < j < entries.len() ==> (#[trigger] entries[i]).0 != (#[trigger] entries[j]).0
    }
}

impl Clone for DevString {
    fn clone(&self) -> (copy: DevString)
        ensures
            copy@ == self@,
    {
        self.duplicate()
    }
}

impl DevString {
    /// A copy of the text, with its records and its causes.
    pub fn duplicate(&self) -> (copy: DevString)
        ensures
            copy@ == self@,
        decreases self,
    {
        let mut records: Vec<(String, Json)> = Vec::new();
        let mut i: usize = 0;
        while i < self.records.len()
            invariant
                i <= self.records.len(),
                records@.len() == i,
                forall|k: int|
                    0 <= k < i ==> records@[k].0@ == self.records@[k].0@ && records@[k].1@
                        == self.records@[k].1@,
            decreases self.records.len() - i,
        {
            records.push((self.records[i].0.clone(), self.records[i].1.duplicate()));
            i += 1;
        }
        let mut records_dbg: Vec<(String, String)> = Vec::new();
        let mut i: usize = 0;
        while i < self.records_dbg.len()
            invariant
                i <= self.records_dbg.len(),
                records_dbg@.len() == i,
                forall|k: int|
                    0 <= k < i ==> records_dbg@[k].0@ == self.records_dbg@[k].0@
                        && records_dbg@[k].1@ == self.records_dbg@[k].1@,
            decreases self.records_dbg.len() - i,
        {
            records_dbg.push((self.records_dbg[i].0.clone(), self.records_dbg[i].1.clone()));
            i += 1;
        }
        let cause = match &self.cause {
            Some(cause) => Some(Box::new((**cause).duplicate())),
            None => None,
        };
        let copy = DevString { message: self.message.clone(), records, records_dbg, cause };
        assert(copy@.records =~= self@.records);
        assert(copy@.records_dbg =~= self@.records_dbg);
        copy
    }

    /// A text with a message and nothing else.
    pub fn new(message: &str) -> (text: DevString)
        ensures
            text@ == DevStringView::plain(message@),
    {
        let text = DevString {
            message: message.to_owned(),
            records: Vec::new(),
            records_dbg: Vec::new(),
            cause: None,
        };
        assert(text@.records =~= Seq::empty());
        assert(text@.records_dbg =~= Seq::empty());
        text
    }

    /// The same text, said to be caused by `reason`. An earlier cause is
    /// replaced.
    pub fn because(self, reason: DevString) -> (text: DevString)
        ensures
            text@ == (DevStringView { cause: Some(Box::new(reason@)), ..self@ }),
    {
        let mut text = self;
        text.cause = Some(Box::new(reason));
        text
    }

    /// The same text with `value` recorded under `name`, in the place of an
    /// earlier record of that name if there is one.
    pub fn with(self, name: String, value: Json) -> (text: DevString)
        ensures
            text@ == (DevStringView {
                records: DevStringView::recorded(self@.records, name@, value@),
                ..self@
            }),
            DevStringView::distinct_names(self@.records) ==> DevStringView::distinct_names(
                text@.records,
            ),
    {
        let mut text = self;
        let ghost before = text@;
        let mut at: usize = 0;
        while at < text.records.len() && !(text.records[at].0 == name)
            invariant
                at <= text.records.len(),
                text@ == before,
                forall|j: int| 0 <= j < at ==> (#[trigger] text@.records[j]).0 != name@,
            decreases text.records.len() - at,
        {
            at += 1;
        }
        proof {
            if at < text.records.len() {
                assert(DevStringView::is_first_named(before.records, name@, at as int));
            } else {
                assert forall|k: int| !DevStringView::is_first_named(before.records, name@, k) by {
                    if 0 <= k < before.records.len() {
                        assert(before.records[k].0 != name@);
                    }
                }
            }
            assert(DevStringView::position(before.records, name@) == at);
        }
        if at < text.records.len() {
            text.records.set(at, (name, value));
        } else {
            text.records.push((name, value));
        }
        assert(text@.records =~= DevStringView::recorded(before.records, name@, value@));
        assert(text@.records_dbg =~= before.records_dbg);
        text
    }

    /// The same text with the printed form `value` recorded under `name`
    /// among the records for debugging, in the place of an earlier record of
    /// that name if there is one.
    pub fn with_dbg(self, name: String, value: String) -> (text: DevString)
        ensures
            text@ == (DevStringView {
                records_dbg: DevStringView::recorded(self@.records_dbg, name@, value@),
                ..self@
            }),
            DevStringView::distinct_names(self@.records_dbg) ==> DevStringView::distinct_names(
                text@.records_dbg,
            ),
    {
        let mut text = self;
        let ghost before = text@;
        let mut at: usize = 0;
        while at < text.records_dbg.len() && !(text.records_dbg[at].0 == name)
            invariant
                at <= text.records_dbg.len(),
                text@ == before,
                forall|j: int| 0 <= j < at ==> (#[trigger] text@.records_dbg[j]).0 != name@,
            decreases text.records_dbg.len() - at,
        {
            at += 1;
        }
        proof {
            if at < text.records_dbg.len() {
                assert(DevStringView::is_first_named(before.records_dbg, name@, at as int));
            } else {
                assert forall|k: int|
                    !DevStringView::is_first_named(before.records_dbg, name@, k) by {
                    if 0 <= k < before.records_dbg.len() {
                        assert(before.records_dbg[k].0 != name@);
                    }
                }
            }
            assert(DevStringView::position(before.records_dbg, name@) == at);
        }
        if at < text.records_dbg.len() {
            text.records_dbg.set(at, (name, value));
        } else {
            text.records_dbg.push((name, value));
        }
        assert(text@.records_dbg =~= DevStringView::recorded(before.records_dbg, name@, value@));
        assert(text@.records =~= before.records);
        text
    }
}

} // verus!
