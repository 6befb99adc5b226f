//! JSON documents as plain values.
//!
//! [`Json`] is the executable tree, [`Doc`] its mathematical view. Reading
//! the bytes of a text is left to `serde_json`; everything after that first
//! step works on [`Json`] and is verified.

use crate::document::{find_from, Doc, Number};
use vstd::prelude::*;

verus! {

/// `serde_json::Value`, the tree that `serde_json` reads a text into. What
/// one holds is [`content`].
#[verifier::external_type_specification]
#[verifier::external_body]
pub struct ExValue(serde_json::Value);

/// `serde_json::Error`, the complaint about a text that is not JSON. It is
/// carried along and never looked into.
#[verifier::external_type_specification]
#[verifier::external_body]
pub struct ExSyntaxError(serde_json::Error);

/// A JSON document.
#[derive(Debug, PartialEq)]
pub enum Json {
    Null,
    Bool(bool),
    Number(Number),
    Str(String),
    Array(Vec<Json>),
    /// The members of an object, key and value, in order.
    Object(Vec<(String, Json)>),
}

impl View for Json {
    type V = Doc;

    open spec fn view(&self) -> Doc
        decreases self,
    {
        match self {
            Json::Null => Doc::Null,
            Json::Bool(b) => Doc::Bool(*b),
            Json::Number(n) => Doc::Number(*n),
            Json::Str(s) => Doc::Text(s@),
            Json::Array(items) => Doc::Array(
                Seq::new(
                    items@.len(),
                    |i: int|
                        if 0 <= i < items@.len() {
                            items@[i].view()
                        } else {
                            Doc::Null
                        },
                ),
            ),
            Json::Object(members) => Doc::Object(
                Seq::new(
                    members@.len(),
                    |i: int|
                        if 0 <= i < members@.len() {
                            (members@[i].0@, members@[i].1.view())
                        } else {
                            (Seq::empty(), Doc::Null)
                        },
                ),
            ),
        }
    }
}

impl Json {
    /// The member of an object with the given key.
    pub fn get(&self, key: &str) -> (r: Option<&Json>)
        ensures
            match r {
                Some(j) => self@.member(key@) == Some(j@),
                None => self@.member(key@) is None,
            },
    {
        match self {
            Json::Object(members) => {
                let wanted: String = key.to_owned();
                let ghost all = member_views(members@);
                proof {
                    lemma_view_object(*members);
                }
                let mut i: usize = 0;
                while i < members.len()
                    invariant
                        i <= members@.len(),
                        wanted@ == key@,
                        all == member_views(members@),
                        self@ == Doc::Object(all),
                        find_from(all, key@, 0) == find_from(all, key@, i as int),
                    decreases members@.len() - i,
                {
                    if members[i].0 == wanted {
                        return Some(&members[i].1);
                    }
                    i += 1;
                }
                None
            },
            _ => None,
        }
    }

    /// The string, where the document is one.
    pub fn as_string(&self) -> (r: Option<&String>)
        ensures
            match r {
                Some(s) => self@.text() == Some(s@),
                None => self@.text() is None,
            },
    {
        match self {
            Json::Str(s) => Some(s),
            _ => None,
        }
    }

    /// The integer, where the document is a number that fits a signed 64-bit
    /// integer.
    pub fn as_i64(&self) -> (r: Option<i64>)
        ensures
            r == self@.integer(),
    {
        match self {
            Json::Number(n) => n.as_i64(),
            _ => None,
        }
    }

    /// The number, where the document is one.
    pub fn as_number(&self) -> (r: Option<Number>)
        ensures
            r == self@.number(),
    {
        match self {
            Json::Number(n) => Some(*n),
            _ => None,
        }
    }

    /// The items, where the document is an array.
    pub fn as_array(&self) -> (r: Option<&Vec<Json>>)
        ensures
            match r {
                Some(items) => self@.items() == Some(views(items@)),
                None => self@.items() is None,
            },
    {
        match self {
            Json::Array(items) => {
                proof {
                    lemma_view_array(*items);
                }
                Some(items)
            },
            _ => None,
        }
    }
}

/// The views of a sequence of documents.
pub open spec fn views(items: Seq<Json>) -> Seq<Doc> {
    Seq::new(items.len(), |i: int| items[i]@)
}

/// The views of the members of an object.
pub open spec fn member_views(members: Seq<(String, Json)>) -> Seq<(Seq<char>, Doc)> {
    Seq::new(members.len(), |i: int| (members[i].0@, members[i].1@))
}

/// The view of an array is the sequence of the views of its items.
pub proof fn lemma_view_array(items: Vec<Json>)
    ensures
        Json::Array(items)@ == Doc::Array(views(items@)),
{
    reveal_with_fuel(<Json as View>::view, 2);
    assert(Json::Array(items)@->Array_0 =~= views(items@));
}

/// The view of an object is the sequence of the views of its members.
pub proof fn lemma_view_object(members: Vec<(String, Json)>)
    ensures
        Json::Object(members)@ == Doc::Object(member_views(members@)),
{
    reveal_with_fuel(<Json as View>::view, 2);
    assert(Json::Object(members)@->Object_0 =~= member_views(members@));
}

/// What a `serde_json::Value` holds: its variant and, below it, what its
/// items or members hold, the members in the order in which the value hands
/// them out. A number is what [`Number::of_readings`] makes of the three ways
/// in which `serde_json` gives it out.
pub uninterp spec fn content(v: serde_json::Value) -> Doc;

/// What `serde_json::from_slice` makes of the bytes of a text: the document
/// that the text denotes, or `None` where it rejects the bytes.
pub uninterp spec fn parsed(bytes: Seq<u8>) -> Option<Doc>;

/// The top of a `serde_json::Value`, with what lies below it still unread.
enum Layer<'a> {
    Null,
    Bool(bool),
    /// A number, as an unsigned integer, as a signed integer and as the bits
    /// of a binary64 value, each where `serde_json` gives it out so.
    Number(Option<u64>, Option<i64>, Option<u64>),
    Str(&'a String),
    Array(&'a Vec<serde_json::Value>),
    Object(Vec<(&'a String, &'a serde_json::Value)>),
}

impl Layer<'_> {
    /// The document that a layer stands for.
    spec fn shown(self) -> Doc {
        match self {
            Layer::Null => Doc::Null,
            Layer::Bool(b) => Doc::Bool(b),
            Layer::Number(unsigned, signed, bits) => Doc::Number(
                Number::of_readings(unsigned, signed, bits),
            ),
            Layer::Str(s) => Doc::Text(s@),
            Layer::Array(items) => Doc::Array(Seq::new(items@.len(), |i: int| content(items@[i]))),
            Layer::Object(members) => Doc::Object(
                Seq::new(members@.len(), |i: int| (members@[i].0@, content(*members@[i].1))),
            ),
        }
    }
}

/// `serde_json::from_slice` at the type `serde_json::Value`. The contract
/// gives the outcome a name and claims no more: the value that comes back
/// holds `parsed` of the bytes, and an error comes back where `parsed` is
/// `None`.
#[verifier::external_body]
fn read_value(bytes: &[u8]) -> (r: Result<serde_json::Value, serde_json::Error>)
    ensures
        match r {
            Ok(v) => parsed(bytes@) == Some(content(v)),
            Err(_) => parsed(bytes@) is None,
        },
{
    serde_json::from_slice::<serde_json::Value>(bytes)
}

/// Takes a `serde_json::Value` apart by its six variants, one level deep. The
/// contract claims that the layer stands for what the value holds: the same
/// variant, the same scalar, and items or members that are the value's own, in
/// its order. Of a number it takes what `as_u64`, `as_i64` and `as_f64` of
/// `serde_json::Number` give, the last as its bits.
#[verifier::external_body]
fn peel<'a>(v: &'a serde_json::Value) -> (l: Layer<'a>)
    ensures
        l.shown() == content(*v),
{
    match v {
        serde_json::Value::Null => Layer::Null,
        serde_json::Value::Bool(b) => Layer::Bool(*b),
        serde_json::Value::Number(x) => Layer::Number(
            x.as_u64(),
            x.as_i64(),
            x.as_f64().map(|f| f.to_bits()),
        ),
        serde_json::Value::String(s) => Layer::Str(s),
        serde_json::Value::Array(a) => Layer::Array(a),
        serde_json::Value::Object(m) => Layer::Object(m.iter().collect()),
    }
}

/// Copies what a `serde_json::Value` holds into a document.
fn document_of(v: &serde_json::Value) -> (j: Json)
    ensures
        j@ == content(*v),
    decreases content(*v),
{
    match peel(v) {
        Layer::Null => Json::Null,
        Layer::Bool(b) => Json::Bool(b),
        Layer::Number(unsigned, signed, bits) => Json::Number(
            Number::from_readings(unsigned, signed, bits),
        ),
        Layer::Str(s) => Json::Str(s.clone()),
        Layer::Array(items) => {
            let ghost below = Seq::new(items@.len(), |i: int| content(items@[i]));
            let mut out: Vec<Json> = Vec::new();
            let mut i: usize = 0;
            while i < items.len()
                invariant
                    i <= items@.len(),
                    out@.len() == i,
                    below == Seq::new(items@.len(), |k: int| content(items@[k])),
                    content(*v) == Doc::Array(below),
                    forall|k: int| 0 <= k < i ==> (#[trigger] out@[k])@ == below[k],
                decreases items@.len() - i,
            {
                proof {
                    assert(below[i as int] == content(items@[i as int]));
                    assert(content(*v)->Array_0 == below);
                    assert(decreases_to!(content(*v) => content(*v)->Array_0));
                    assert(decreases_to!(below => below[i as int]));
                }
                let item = document_of(&items[i]);
                out.push(item);
                i += 1;
            }
            proof {
                lemma_view_array(out);
                assert(views(out@) =~= below);
            }
            Json::Array(out)
        },
        Layer::Object(members) => {
            let ghost below = Seq::new(
                members@.len(),
                |i: int| (members@[i].0@, content(*members@[i].1)),
            );
            let mut out: Vec<(String, Json)> = Vec::new();
            let mut i: usize = 0;
            while i < members.len()
                invariant
                    i <= members@.len(),
                    out@.len() == i,
                    below == Seq::new(
                        members@.len(),
                        |k: int| (members@[k].0@, content(*members@[k].1)),
                    ),
                    content(*v) == Doc::Object(below),
                    forall|k: int|
                        0 <= k < i ==> ((#[trigger] out@[k]).0@, out@[k].1@) == below[k],
                decreases members@.len() - i,
            {
                proof {
                    assert(below[i as int] == (members@[i as int].0@, content(*members@[i as int].1)));
                    assert(content(*v)->Object_0 == below);
                    assert(decreases_to!(content(*v) => content(*v)->Object_0));
                    assert(decreases_to!(below => below[i as int]));
                    assert(decreases_to!(below[i as int] => below[i as int].1));
                }
                let key: String = members[i].0.clone();
                let value = document_of(members[i].1);
                out.push((key, value));
                i += 1;
            }
            proof {
                lemma_view_object(out);
                assert(member_views(out@) =~= below);
            }
            Json::Object(out)
        },
    }
}

impl Json {
    /// Reads one JSON document from the bytes of a text.
    pub fn parse(bytes: &[u8]) -> (r: Result<Json, serde_json::Error>)
        ensures
            match r {
                Ok(j) => parsed(bytes@) == Some(j@),
                Err(_) => parsed(bytes@) is None,
            },
    {
        match read_value(bytes) {
            Ok(v) => Ok(document_of(&v)),
            Err(e) => Err(e),
        }
    }
}

} // verus!

