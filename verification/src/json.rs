//! A structured document, as a search backend answers with one.
//!
//! The model keeps what the rules of this crate read: the nesting, the member
//! names, the texts and the whole numbers.

use vstd::prelude::*;
use vstd::string::*;

verus! {

/// A structured document.
#[derive(Debug, PartialEq, Eq)]
pub enum Json {
    Null,
    Bool(bool),
    Number(i64),
    Text(String),
    Array(Vec<Json>),
    /// Members in document order; a name is looked up from the front.
    Object(Vec<(String, Json)>),
}

/// The mathematical content of a [`Json`] document.
pub enum JsonView {
    Null,
    Bool(bool),
    Number(int),
    Text(Seq<char>),
    Array(Seq<JsonView>),
    Object(Seq<(Seq<char>, JsonView)>),
}

impl View for Json {
    type V = JsonView;

    open spec fn view(&self) -> JsonView
        decreases self,
    {
        match self {
            Json::Null => JsonView::Null,
            Json::Bool(b) => JsonView::Bool(*b),
            Json::Number(n) => JsonView::Number(*n as int),
            Json::Text(s) => JsonView::Text(s@),
            Json::Array(items) => JsonView::Array(
                Seq::new(
                    items@.len(),
                    |i: int|
                        if 0 <= i < items@.len() {
                            items@[i]@
                        } else {
                            JsonView::Null
                        },
                ),
            ),
            Json::Object(members) => JsonView::Object(
                Seq::new(
                    members@.len(),
                    |i: int|
                        if 0 <= i < members@.len() {
                            member_view(members@[i])
                        } else {
                            (Seq::empty(), JsonView::Null)
                        },
                ),
            ),
        }
    }
}

/// The content of one member of an object: its name and its value.
pub open spec fn member_view(member: (String, Json)) -> (Seq<char>, JsonView)
    decreases member,
{
    (member.0@, member.1@)
}

impl JsonView {
    /// The value of the first member called `name`, if this is an object that
    /// has one.
    pub open spec fn member(self, name: Seq<char>) -> Option<JsonView> {
        match self {
            JsonView::Object(members) => first_named(members, name),
            _ => None,
        }
    }

    /// The element at `index`, if this is an array that long.
    pub open spec fn element(self, index: int) -> Option<JsonView> {
        match self {
            JsonView::Array(items) => if 0 <= index < items.len() {
                Some(items[index])
            } else {
                None
            },
            _ => None,
        }
    }

    /// The elements, if this is an array.
    pub open spec fn elements(self) -> Option<Seq<JsonView>> {
        match self {
            JsonView::Array(items) => Some(items),
            _ => None,
        }
    }

    /// The text, if this is one.
    pub open spec fn text(self) -> Option<Seq<char>> {
        match self {
            JsonView::Text(s) => Some(s),
            _ => None,
        }
    }
}

/// The value of the first of `members` that is called `name`.
pub open spec fn first_named(members: Seq<(Seq<char>, JsonView)>, name: Seq<char>) -> Option<
    JsonView,
>
    decreases members.len(),
{
    if members.len() == 0 {
        None
    } else if members[0].0 == name {
        Some(members[0].1)
    } else {
        first_named(members.drop_first(), name)
    }
}

/// The view of an optional reference into a document.
pub open spec fn opt_view(j: Option<&Json>) -> Option<JsonView> {
    match j {
        Some(v) => Some(v@),
        None => None,
    }
}

/// One step down by member name; nothing leads to nothing.
pub open spec fn descend(from: Option<JsonView>, name: Seq<char>) -> Option<JsonView> {
    match from {
        Some(j) => j.member(name),
        None => None,
    }
}

/// One step down by position; nothing leads to nothing.
pub open spec fn descend_at(from: Option<JsonView>, index: int) -> Option<JsonView> {
    match from {
        Some(j) => j.element(index),
        None => None,
    }
}

/// The text found at the end of a descent, if it ended on one.
pub open spec fn text_in(from: Option<JsonView>) -> Option<Seq<char>> {
    match from {
        Some(j) => j.text(),
        None => None,
    }
}

/// The array found at the end of a descent, if it ended on one.
pub open spec fn array_in(from: Option<JsonView>) -> Option<Seq<JsonView>> {
    match from {
        Some(j) => j.elements(),
        None => None,
    }
}

/// The elements found at the end of a descent; none where it did not end on
/// an array.
pub open spec fn elements_in(from: Option<JsonView>) -> Seq<JsonView> {
    match array_in(from) {
        Some(items) => items,
        None => Seq::empty(),
    }
}

impl Json {
    /// The value of the first member called `name`, if this is an object that
    /// has one.
    pub fn get(&self, name: &str) -> (r: Option<&Json>)
        ensures
            opt_view(r) == self@.member(name@),
    {
        match self {
            Json::Object(members) => {
                let wanted = String::from_str(name);
                let ghost all = self@->Object_0;
                assert(all.skip(0) == all);
                let mut i: usize = 0;
                while i < members.len()
                    invariant
                        i <= members.len(),
                        wanted@ == name@,
                        self@ == JsonView::Object(all),
                        all.len() == members@.len(),
                        forall|k: int|
                            0 <= k < members@.len() ==> all[k] == member_view(members@[k]),
                        first_named(all, name@) == first_named(all.skip(i as int), name@),
                    decreases members.len() - i,
                {
                    assert(all.skip(i as int)[0] == all[i as int]);
                    assert(all.skip(i as int).drop_first() == all.skip(i + 1));
                    if members[i].0 == wanted {
                        return Some(&members[i].1);
                    }
                    i += 1;
                }
                None
            },
            _ => None,
        }
    }

    /// The element at `index`, if this is an array that long.
    pub fn at(&self, index: usize) -> (r: Option<&Json>)
        ensures
            opt_view(r) == self@.element(index as int),
    {
        match self {
            Json::Array(items) => if index < items.len() {
                Some(&items[index])
            } else {
                None
            },
            _ => None,
        }
    }

    /// The elements, if this is an array.
    pub fn as_array(&self) -> (r: Option<&Vec<Json>>)
        ensures
            match r {
                Some(items) => self@.elements() == Some(views_of(items@)),
                None => self@.elements() is None,
            },
    {
        match self {
            Json::Array(items) => Some(items),
            _ => None,
        }
    }

    /// The text, if this is one.
    pub fn as_str(&self) -> (r: Option<&str>)
        ensures
            match r {
                Some(s) => self@.text() == Some(s@),
                None => self@.text() is None,
            },
    {
        match self {
            Json::Text(s) => Some(s.as_str()),
            _ => None,
        }
    }
}

/// One step down by member name; nothing leads to nothing.
pub fn child<'a>(from: Option<&'a Json>, name: &str) -> (r: Option<&'a Json>)
    ensures
        opt_view(r) == descend(opt_view(from), name@),
{
    match from {
        Some(j) => j.get(name),
        None => None,
    }
}

/// One step down by position; nothing leads to nothing.
pub fn child_at<'a>(from: Option<&'a Json>, index: usize) -> (r: Option<&'a Json>)
    ensures
        opt_view(r) == descend_at(opt_view(from), index as int),
{
    match from {
        Some(j) => j.at(index),
        None => None,
    }
}

/// The text found at the end of a descent, if it ended on one.
pub fn text_of<'a>(from: Option<&'a Json>) -> (r: Option<&'a str>)
    ensures
        match r {
            Some(s) => text_in(opt_view(from)) == Some(s@),
            None => text_in(opt_view(from)) is None,
        },
{
    match from {
        Some(j) => j.as_str(),
        None => None,
    }
}

/// The array found at the end of a descent, if it ended on one.
pub fn elements_of<'a>(from: Option<&'a Json>) -> (r: Option<&'a Vec<Json>>)
    ensures
        match r {
            Some(items) => array_in(opt_view(from)) == Some(views_of(items@)),
            None => array_in(opt_view(from)) is None,
        },
{
    match from {
        Some(j) => j.as_array(),
        None => None,
    }
}

/// The views of a run of documents, in order.
pub open spec fn views_of(items: Seq<Json>) -> Seq<JsonView> {
    Seq::new(items.len(), |i: int| items[i]@)
}

} // verus!
